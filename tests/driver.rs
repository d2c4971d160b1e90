use std::cell::RefCell;
use std::rc::Rc;

use iced_winit::application::{document, Application, Document, Renderer};
use iced_winit::driver::{Action, Driver};
use iced_winit::input::{
    button_state, mouse_button, to_physical, translate, Button, ButtonState, Event, Notification,
    RawButton, RawState, Scale,
};

#[derive(Clone, Copy, Debug, PartialEq)]
enum Msg {
    Increment,
    Double,
}

#[derive(Clone, Debug, PartialEq)]
struct Counter {
    value: i64,
}

impl Application for Counter {
    type Message = Msg;
    type Element = String;
    type Renderer = Mock;

    fn after(self, message: Msg) -> Counter {
        match message {
            Msg::Increment => Counter { value: self.value + 1 },
            Msg::Double => Counter { value: self.value * 2 },
        }
    }

    fn view_of(self) -> String {
        format!("{}", self.value)
    }

    fn update(&mut self, message: Msg) {
        *self = self.clone().after(message);
    }

    fn view(&mut self) -> String {
        self.clone().view_of()
    }
}

#[derive(Default, Debug)]
struct Log {
    builds: Vec<(u16, u16, String, u32)>,
    drains: Vec<Vec<Event>>,
    draws: Vec<String>,
}

struct Mock {
    log: Rc<RefCell<Log>>,
}

struct MockCache {
    generation: u32,
}

struct MockSession {
    doc: Document<String>,
    cache: MockCache,
    log: Rc<RefCell<Log>>,
}

impl Renderer<String, Msg> for Mock {
    type Cache = MockCache;
    type Session = MockSession;
    type Primitive = String;
    type Target = Vec<String>;

    fn document_of_session(session: MockSession) -> Document<String> {
        session.doc
    }

    fn messages_of(_doc: Document<String>, events: Vec<Event>) -> Vec<Msg> {
        events
            .iter()
            .filter_map(|e| match e {
                Event::Input { button: Button::Left, state: ButtonState::Pressed } => {
                    Some(Msg::Increment)
                }
                Event::Input { button: Button::Right, state: ButtonState::Pressed } => {
                    Some(Msg::Double)
                }
                _ => None,
            })
            .collect()
    }

    fn picture_of(doc: Document<String>) -> String {
        format!("{}x{}:{}", doc.width, doc.height, doc.content)
    }

    fn cache_of_session(session: MockSession) -> MockCache {
        session.cache
    }

    fn refreshed(_doc: Document<String>, cache: MockCache) -> MockCache {
        MockCache { generation: cache.generation + 1 }
    }

    fn fresh() -> MockCache {
        MockCache { generation: 0 }
    }

    fn shown(target: Vec<String>) -> String {
        target.last().cloned().unwrap_or_default()
    }

    fn empty_cache() -> MockCache {
        Mock::fresh()
    }

    fn build(&mut self, doc: Document<String>, cache: MockCache) -> MockSession {
        self.log.borrow_mut().builds.push((
            doc.width,
            doc.height,
            doc.content.clone(),
            cache.generation,
        ));
        let copy = Document { width: doc.width, height: doc.height, content: doc.content.clone() };
        MockSession {
            doc,
            cache: Mock::refreshed(copy, cache),
            log: self.log.clone(),
        }
    }

    fn drain(session: &mut MockSession, events: Vec<Event>) -> Vec<Msg> {
        session.log.borrow_mut().drains.push(events.clone());
        let doc = Document {
            width: session.doc.width,
            height: session.doc.height,
            content: session.doc.content.clone(),
        };
        Mock::messages_of(doc, events)
    }

    fn draw_session(&mut self, session: &MockSession) -> String {
        Mock::picture_of(Document {
            width: session.doc.width,
            height: session.doc.height,
            content: session.doc.content.clone(),
        })
    }

    fn into_cache(session: MockSession) -> MockCache {
        session.cache
    }

    fn target(&mut self, _width: u16, _height: u16) -> Vec<String> {
        Vec::new()
    }

    fn draw(&mut self, target: &mut Vec<String>, primitive: &String) {
        target.push(primitive.clone());
        self.log.borrow_mut().draws.push(primitive.clone());
    }
}

fn one() -> Scale {
    Scale { numerator: 1, denominator: 1 }
}

fn driver(value: i64) -> (Driver<Counter>, Rc<RefCell<Log>>) {
    let log = Rc::new(RefCell::new(Log::default()));
    let d = Driver::new(
        Counter { value },
        Mock { log: log.clone() },
        800,
        600,
        one(),
    );
    (d, log)
}

fn press(button: RawButton) -> Notification {
    Notification::MouseInput { button, state: RawState::Pressed }
}

#[test]
fn startup_builds_and_draws_once() {
    let (d, log) = driver(0);
    assert_eq!(d.snapshot(), "800x600:0");
    assert!(d.queued_events().is_empty());
    assert!(!d.has_exited());
    assert_eq!(d.document_size(), (800, 600));
    assert_eq!(log.borrow().builds, vec![(800, 600, "0".to_string(), 0)]);
    assert!(log.borrow().draws.is_empty());
}

#[test]
fn counter_scenario_at_fixed_size() {
    let (mut d, log) = driver(0);
    assert_eq!(d.handle(Notification::Resized { width: 1024, height: 768 }), Action::Wait);
    assert_eq!(d.handle(press(RawButton::Left)), Action::Wait);
    assert_eq!(d.handle(Notification::EventsCleared), Action::Redraw);
    assert_eq!(d.application_state().value, 1);
    assert_eq!(d.snapshot(), "800x600:1");
    assert_eq!(d.handle(Notification::RedrawRequested), Action::Wait);
    let log = log.borrow();
    assert_eq!(
        log.builds,
        vec![
            (800, 600, "0".to_string(), 0),
            (800, 600, "0".to_string(), 1),
            (800, 600, "1".to_string(), 2),
        ]
    );
    assert_eq!(log.draws, vec!["800x600:1".to_string()]);
}

#[test]
fn reclaimed_cache_is_threaded_into_the_next_cycle() {
    let (mut d, log) = driver(0);
    d.handle(press(RawButton::Left));
    d.handle(Notification::EventsCleared);
    d.handle(Notification::EventsCleared);
    let generations: Vec<u32> = log.borrow().builds.iter().map(|b| b.3).collect();
    assert_eq!(generations, vec![0, 1, 2, 3]);
    assert_eq!(log.borrow().drains.len(), 2);
}

#[test]
fn events_reach_the_drain_in_queue_order() {
    let (mut d, log) = driver(0);
    d.handle(Notification::CursorMoved { x: 10, y: 10 });
    d.handle(press(RawButton::Left));
    let expected = vec![
        Event::CursorMoved { x: 10, y: 10 },
        Event::Input { button: Button::Left, state: ButtonState::Pressed },
    ];
    assert_eq!(d.queued_events(), &expected);
    d.handle(Notification::EventsCleared);
    assert_eq!(log.borrow().drains, vec![expected]);
    assert!(d.queued_events().is_empty());
    assert_eq!(d.application_state().value, 1);
}

#[test]
fn cycle_without_messages_commits_the_first_build() {
    let (mut d, log) = driver(5);
    d.handle(Notification::CursorMoved { x: 3, y: 4 });
    d.handle(Notification::MouseInput { button: RawButton::Left, state: RawState::Released });
    assert_eq!(d.handle(Notification::EventsCleared), Action::Redraw);
    assert_eq!(d.application_state(), &Counter { value: 5 });
    assert_eq!(d.snapshot(), "800x600:5");
    assert_eq!(log.borrow().builds.len(), 2);
}

#[test]
fn messages_are_applied_in_arrival_order() {
    let (mut d, log) = driver(1);
    d.handle(press(RawButton::Left));
    d.handle(press(RawButton::Right));
    d.cycle();
    assert_eq!(d.application_state().value, 4);
    assert_eq!(d.snapshot(), "800x600:4");
    assert_eq!(log.borrow().builds.last().unwrap().2, "4");

    let (mut d, _) = driver(1);
    d.handle(press(RawButton::Right));
    d.handle(press(RawButton::Left));
    d.cycle();
    assert_eq!(d.application_state().value, 3);
}

#[test]
fn every_cycle_requests_one_redraw() {
    let (mut d, log) = driver(0);
    assert_eq!(d.handle(Notification::EventsCleared), Action::Redraw);
    d.handle(press(RawButton::Left));
    assert_eq!(d.handle(Notification::EventsCleared), Action::Redraw);
    assert_eq!(d.handle(Notification::EventsCleared), Action::Redraw);
    assert_eq!(log.borrow().builds.len(), 5);
    assert!(log.borrow().draws.is_empty());
}

#[test]
fn redraw_shows_latest_snapshot_without_rebuilding() {
    let (mut d, log) = driver(2);
    assert_eq!(d.handle(Notification::RedrawRequested), Action::Wait);
    assert_eq!(d.handle(Notification::RedrawRequested), Action::Wait);
    assert_eq!(log.borrow().builds.len(), 1);
    assert_eq!(log.borrow().draws, vec!["800x600:2".to_string(), "800x600:2".to_string()]);
}

#[test]
fn close_ends_all_processing() {
    let (mut d, log) = driver(0);
    d.handle(press(RawButton::Left));
    assert_eq!(d.handle(Notification::CloseRequested), Action::Exit);
    assert!(d.has_exited());
    assert_eq!(d.handle(Notification::EventsCleared), Action::Exit);
    assert_eq!(d.handle(Notification::RedrawRequested), Action::Exit);
    assert_eq!(d.handle(press(RawButton::Right)), Action::Exit);
    assert_eq!(d.queued_events().len(), 1);
    assert_eq!(d.application_state().value, 0);
    assert_eq!(log.borrow().builds.len(), 1);
    assert!(log.borrow().draws.is_empty());
}

#[test]
fn other_notifications_change_nothing() {
    let (mut d, log) = driver(7);
    assert_eq!(d.handle(Notification::Other), Action::Wait);
    assert_eq!(d.handle(Notification::Resized { width: 10, height: 10 }), Action::Wait);
    assert!(d.queued_events().is_empty());
    assert_eq!(d.document_size(), (800, 600));
    assert_eq!(log.borrow().builds.len(), 1);
}

#[test]
fn cursor_position_is_scaled_to_physical_pixels() {
    let scale = Scale { numerator: 3, denominator: 2 };
    assert_eq!(
        translate(Notification::CursorMoved { x: -5, y: 7 }, scale),
        Some(Event::CursorMoved { x: -7, y: 10 })
    );
    assert_eq!(to_physical(i32::MIN, Scale { numerator: u32::MAX, denominator: 1 }),
        -2147483648i64 * 4294967295i64);
    assert_eq!(to_physical(i32::MAX, Scale { numerator: 2, denominator: 1 }), 4294967294);
    assert_eq!(to_physical(0, scale), 0);
}

#[test]
fn buttons_map_one_to_one() {
    assert_eq!(mouse_button(RawButton::Left), Button::Left);
    assert_eq!(mouse_button(RawButton::Right), Button::Right);
    assert_eq!(mouse_button(RawButton::Middle), Button::Middle);
    assert_eq!(mouse_button(RawButton::Other(4)), Button::Other(4));
    assert_eq!(button_state(RawState::Pressed), ButtonState::Pressed);
    assert_eq!(button_state(RawState::Released), ButtonState::Released);
    assert_eq!(
        translate(Notification::MouseInput { button: RawButton::Other(4), state: RawState::Released }, one()),
        Some(Event::Input { button: Button::Other(4), state: ButtonState::Released })
    );
    assert_eq!(translate(Notification::CloseRequested, one()), None);
    assert_eq!(translate(Notification::EventsCleared, one()), None);
}

#[test]
fn document_wraps_the_view_at_the_given_size() {
    let mut c = Counter { value: 9 };
    let doc = document(&mut c, 320, 200);
    assert_eq!((doc.width, doc.height, doc.content.as_str()), (320, 200, "9"));
    assert_eq!(c.value, 9);
}
