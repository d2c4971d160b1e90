//! The driver: one state structure, fed one platform notification at a time.
use vstd::prelude::*;
use crate::application::{
    Application, Renderer, Document, CacheOf, PrimitiveOf, TargetOf, document, document_of,
    apply_all, snapshot_of, messages_for, refreshed_cache, fresh_cache, shown_on,
};
use crate::input::{Event, Notification, Scale, translate, translated};

verus! {

/// What the driver asks of the platform after handling a notification.
#[derive(Clone, Copy, Debug, PartialEq, Eq, Structural)]
pub enum Action {
    /// Block until the next notification.
    Wait,
    /// Request one redraw, then block.
    Redraw,
    /// Stop dispatching notifications.
    Exit,
}

/// All the state the loop carries between notifications: the application,
/// the renderer and its target, the layout cache while it is idle, the
/// queue of events not yet drained, and the latest drawable snapshot.
pub struct Driver<A: Application> {
    application: A,
    renderer: A::Renderer,
    target: TargetOf<A>,
    cache: Option<CacheOf<A>>,
    events: Vec<Event>,
    primitive: PrimitiveOf<A>,
    width: u16,
    height: u16,
    scale: Scale,
    exited: bool,
}

impl<A: Application> Driver<A> {
    pub closed spec fn application(self) -> A {
        self.application
    }

    pub closed spec fn primitive(self) -> PrimitiveOf<A> {
        self.primitive
    }

    /// The events queued since the last cycle, oldest first.
    pub open spec fn events(self) -> Seq<Event> {
        self.queue_vec()@
    }

    /// The queue itself, as the next drain receives it.
    pub closed spec fn queue_vec(self) -> Vec<Event> {
        self.events
    }

    pub closed spec fn width(self) -> u16 {
        self.width
    }

    pub closed spec fn height(self) -> u16 {
        self.height
    }

    pub closed spec fn scale(self) -> Scale {
        self.scale
    }

    pub closed spec fn exited(self) -> bool {
        self.exited
    }

    /// The layout cache sits in the idle slot, ready for the next cycle.
    pub closed spec fn cache_idle(self) -> bool {
        self.cache is Some
    }

    /// The cache in the idle slot.
    pub closed spec fn cache(self) -> CacheOf<A> {
        self.cache->Some_0
    }

    /// The snapshot that the target shows after the last redraw.
    pub closed spec fn shown(self) -> PrimitiveOf<A> {
        shown_on::<A>(self.target)
    }

    /// The cache is idle and the scale factor is usable.
    pub closed spec fn wf(self) -> bool {
        self.cache_idle() && self.scale.wf()
    }

    /// The document that the next cycle builds first.
    pub open spec fn current_document(self) -> Document<A::Element> {
        document_of(self.application(), self.width(), self.height())
    }

    /// The messages that the next cycle's drain yields.
    pub open spec fn pending_messages(self) -> Seq<A::Message> {
        messages_for::<A>(self.current_document(), self.queue_vec())
    }

    /// The application in its current state.
    pub fn application_state(&self) -> (r: &A)
        ensures
            *r == self.application(),
    {
        &self.application
    }

    /// The latest drawable snapshot, which the next redraw shows.
    pub fn snapshot(&self) -> (r: &PrimitiveOf<A>)
        ensures
            *r == self.primitive(),
    {
        &self.primitive
    }

    /// The events queued since the last cycle, oldest first.
    pub fn queued_events(&self) -> (r: &Vec<Event>)
        ensures
            r@ == self.events(),
    {
        &self.events
    }

    pub fn has_exited(&self) -> (r: bool)
        ensures
            r == self.exited(),
    {
        self.exited
    }

    /// The physical size of every document, as captured at startup.
    pub fn document_size(&self) -> (r: (u16, u16))
        ensures
            r == (self.width(), self.height()),
    {
        (self.width, self.height)
    }

    /// The cache that a cycle leaves idle: the one handed back by the first
    /// build when the drain yields no messages, else the one handed back by
    /// the second build, which starts from the first build's cache and the
    /// document of the `updated` state.
    pub open spec fn cache_after_cycle(self, updated: A) -> CacheOf<A> {
        let first = refreshed_cache::<A>(self.current_document(), self.cache());
        if self.pending_messages().len() == 0 {
            first
        } else {
            refreshed_cache::<A>(document_of(updated, self.width(), self.height()), first)
        }
    }

    /// Sets the driver up: builds the first document from a fresh cache and
    /// draws its snapshot, so that the first redraw has something to show.
    pub fn new(application: A, renderer: A::Renderer, width: u16, height: u16, scale: Scale) -> (d: Self)
        requires
            scale.wf(),
        ensures
            d.wf(),
            d.cache_idle(),
            d.application() == application,
            d.primitive() == snapshot_of::<A>(document_of(application, width, height)),
            d.cache() == refreshed_cache::<A>(document_of(application, width, height), fresh_cache::<A>()),
            d.events() == Seq::<Event>::empty(),
            d.width() == width,
            d.height() == height,
            d.scale() == scale,
            !d.exited(),
    {
        let mut application = application;
        let mut renderer = renderer;
        let target = renderer.target(width, height);
        let doc = document(&mut application, width, height);
        let session = renderer.build(doc, <A::Renderer as Renderer<A::Element, A::Message>>::empty_cache());
        let primitive = renderer.draw_session(&session);
        let cache = <A::Renderer as Renderer<A::Element, A::Message>>::into_cache(session);
        Driver {
            application,
            renderer,
            target,
            cache: Some(cache),
            events: Vec::new(),
            primitive,
            width,
            height,
            scale,
            exited: false,
        }
    }

    /// Runs one rebuild-update cycle. The queue is drained in order through a
    /// session built from the current state; with no messages that build is
    /// committed, otherwise the cache is reclaimed, each message is applied in
    /// turn, and a second build from the updated state is committed.
    pub fn cycle(&mut self)
        requires
            old(self).wf(),
        ensures
            final(self).wf(),
            final(self).cache_idle(),
            final(self).application() == apply_all(old(self).application(), old(self).pending_messages()),
            final(self).primitive() == snapshot_of::<A>(final(self).current_document()),
            old(self).pending_messages().len() == 0 ==> final(self).application() == old(self).application()
                && final(self).primitive() == snapshot_of::<A>(old(self).current_document()),
            final(self).cache() == old(self).cache_after_cycle(final(self).application()),
            final(self).shown() == old(self).shown(),
            final(self).events() == Seq::<Event>::empty(),
            final(self).width() == old(self).width(),
            final(self).height() == old(self).height(),
            final(self).scale() == old(self).scale(),
            final(self).exited() == old(self).exited(),
    {
        let mut slot: Option<CacheOf<A>> = None;
        std::mem::swap(&mut slot, &mut self.cache);
        let cache = slot.unwrap();
        let doc = document(&mut self.application, self.width, self.height);
        let mut session = self.renderer.build(doc, cache);
        let mut events: Vec<Event> = Vec::new();
        std::mem::swap(&mut events, &mut self.events);
        let mut messages = <A::Renderer as Renderer<A::Element, A::Message>>::drain(&mut session, events);
        if messages.len() == 0 {
            self.primitive = self.renderer.draw_session(&session);
            self.cache = Some(<A::Renderer as Renderer<A::Element, A::Message>>::into_cache(session));
        } else {
            let reclaimed = <A::Renderer as Renderer<A::Element, A::Message>>::into_cache(session);
            let ghost start = self.application;
            let ghost all = messages@;
            while messages.len() > 0
                invariant
                    all.len() >= messages@.len(),
                    messages@ == all.skip(all.len() - messages@.len()),
                    self.application == apply_all(start, all.take(all.len() - messages@.len())),
                    self.events@ == Seq::<Event>::empty(),
                    self.scale == old(self).scale,
                    self.width == old(self).width,
                    self.height == old(self).height,
                    self.exited == old(self).exited,
                    self.target == old(self).target,
                decreases messages.len(),
            {
                let ghost done = all.len() - messages@.len();
                let message = messages.remove(0);
                self.application.update(message);
                proof {
                    assert(all.take(done + 1).drop_last() =~= all.take(done));
                    assert(all.take(done + 1).last() == all[done]);
                    assert(messages@ =~= all.skip(done + 1));
                }
            }
            assert(all.take(all.len() as int) =~= all);
            let doc = document(&mut self.application, self.width, self.height);
            let session = self.renderer.build(doc, reclaimed);
            self.primitive = self.renderer.draw_session(&session);
            self.cache = Some(<A::Renderer as Renderer<A::Element, A::Message>>::into_cache(session));
        }
    }

    /// Appends the event that an input notification becomes to the queue.
    pub fn queue(&mut self, n: Notification)
        requires
            old(self).wf(),
        ensures
            final(self).wf(),
            final(self).cache_idle(),
            final(self).events() == match translated(n, old(self).scale()) {
                Some(e) => old(self).events().push(e),
                None => old(self).events(),
            },
            final(self).application() == old(self).application(),
            final(self).primitive() == old(self).primitive(),
            final(self).cache() == old(self).cache(),
            final(self).shown() == old(self).shown(),
            final(self).width() == old(self).width(),
            final(self).height() == old(self).height(),
            final(self).scale() == old(self).scale(),
            final(self).exited() == old(self).exited(),
    {
        match translate(n, self.scale) {
            Some(e) => self.events.push(e),
            None => {},
        }
    }

    /// Feeds the latest snapshot to the renderer; nothing is rebuilt.
    pub fn redraw(&mut self)
        requires
            old(self).wf(),
        ensures
            final(self).wf(),
            final(self).cache_idle(),
            final(self).application() == old(self).application(),
            final(self).primitive() == old(self).primitive(),
            final(self).events() == old(self).events(),
            final(self).cache() == old(self).cache(),
            final(self).shown() == old(self).primitive(),
            final(self).width() == old(self).width(),
            final(self).height() == old(self).height(),
            final(self).scale() == old(self).scale(),
            final(self).exited() == old(self).exited(),
    {
        self.renderer.draw(&mut self.target, &self.primitive);
    }

    /// Handles one platform notification. Once a close has been handled,
    /// every later notification is ignored and answered with `Exit`.
    pub fn handle(&mut self, n: Notification) -> (r: Action)
        requires
            old(self).wf(),
        ensures
            final(self).wf(),
            final(self).cache_idle(),
            final(self).width() == old(self).width(),
            final(self).height() == old(self).height(),
            final(self).scale() == old(self).scale(),
            old(self).exited() ==> r == Action::Exit && *final(self) == *old(self),
            !old(self).exited() ==> match n {
                Notification::EventsCleared => {
                    &&& r == Action::Redraw
                    &&& !final(self).exited()
                    &&& final(self).application() == apply_all(old(self).application(), old(self).pending_messages())
                    &&& final(self).primitive() == snapshot_of::<A>(final(self).current_document())
                    &&& old(self).pending_messages().len() == 0 ==> final(self).application() == old(self).application()
                        && final(self).primitive() == snapshot_of::<A>(old(self).current_document())
                    &&& final(self).events() == Seq::<Event>::empty()
                    &&& final(self).cache() == old(self).cache_after_cycle(final(self).application())
                    &&& final(self).shown() == old(self).shown()
                },
                Notification::RedrawRequested => {
                    &&& r == Action::Wait
                    &&& !final(self).exited()
                    &&& final(self).application() == old(self).application()
                    &&& final(self).primitive() == old(self).primitive()
                    &&& final(self).events() == old(self).events()
                    &&& final(self).cache() == old(self).cache()
                    &&& final(self).shown() == old(self).primitive()
                },
                Notification::CursorMoved { .. } | Notification::MouseInput { .. } => {
                    &&& r == Action::Wait
                    &&& !final(self).exited()
                    &&& final(self).application() == old(self).application()
                    &&& final(self).primitive() == old(self).primitive()
                    &&& final(self).events() == old(self).events().push(translated(n, old(self).scale()).unwrap())
                    &&& final(self).cache() == old(self).cache()
                    &&& final(self).shown() == old(self).shown()
                },
                Notification::CloseRequested => {
                    &&& r == Action::Exit
                    &&& final(self).exited()
                    &&& final(self).application() == old(self).application()
                    &&& final(self).primitive() == old(self).primitive()
                    &&& final(self).events() == old(self).events()
                    &&& final(self).cache() == old(self).cache()
                    &&& final(self).shown() == old(self).shown()
                },
                _ => r == Action::Wait && *final(self) == *old(self),
            },
    {
        if self.exited {
            return Action::Exit;
        }
        match n {
            Notification::EventsCleared => {
                self.cycle();
                Action::Redraw
            },
            Notification::RedrawRequested => {
                self.redraw();
                Action::Wait
            },
            Notification::CursorMoved { .. } | Notification::MouseInput { .. } => {
                self.queue(n);
                Action::Wait
            },
            Notification::CloseRequested => {
                self.exited = true;
                Action::Exit
            },
            _ => Action::Wait,
        }
    }
}

} // verus!
