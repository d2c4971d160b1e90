//! What a host application and a renderer backend provide to the driver.
use vstd::prelude::*;
use crate::input::Event;

verus! {

/// An application: a state machine whose only mutator is `update`, and whose
/// `view` describes the widget tree for its current state.
pub trait Application: Sized {
    type Message;

    type Element;

    type Renderer: Renderer<Self::Element, Self::Message>;

    /// The state after handling `message`.
    spec fn after(self, message: Self::Message) -> Self;

    /// The widget tree that `view` builds in this state.
    spec fn view_of(self) -> Self::Element;

    fn update(&mut self, message: Self::Message)
        ensures
            *final(self) == old(self).after(message),
    ;

    fn view(&mut self) -> (e: Self::Element)
        ensures
            *final(self) == *old(self),
            e == old(self).view_of(),
    ;
}

/// The root of one build: a container of fixed physical size holding the
/// application's view as its sole child.
pub struct Document<E> {
    pub width: u16,
    pub height: u16,
    pub content: E,
}

/// The document built from an application in the given state.
pub open spec fn document_of<A: Application>(app: A, width: u16, height: u16) -> Document<A::Element> {
    Document { width, height, content: app.view_of() }
}

/// The state reached by handling `messages` one at a time, in order.
pub open spec fn apply_all<A: Application>(app: A, messages: Seq<A::Message>) -> A
    decreases messages.len(),
{
    if messages.len() == 0 {
        app
    } else {
        apply_all(app, messages.drop_last()).after(messages.last())
    }
}

/// Handling a run of messages and then another run reaches the same state
/// as handling the two runs joined, in that order.
pub proof fn lemma_apply_all_append<A: Application>(app: A, first: Seq<A::Message>, second: Seq<A::Message>)
    ensures
        apply_all(app, first + second) == apply_all(apply_all(app, first), second),
    decreases second.len(),
{
    if second.len() == 0 {
        assert(first + second =~= first);
    } else {
        assert((first + second).drop_last() =~= first + second.drop_last());
        assert((first + second).last() == second.last());
        lemma_apply_all_append(app, first, second.drop_last());
    }
}

/// Two messages drained together are applied strictly in arrival order: the
/// state reached is the first message's update followed by the second's.
pub proof fn lemma_two_messages_in_order<A: Application>(app: A, first: A::Message, second: A::Message)
    ensures
        apply_all(app, seq![first, second]) == app.after(first).after(second),
{
    assert(seq![first, second].drop_last() =~= seq![first]);
    assert(seq![first].drop_last() =~= Seq::<A::Message>::empty());
    assert(apply_all(app, Seq::<A::Message>::empty()) == app);
    assert(apply_all(app, seq![first]) == app.after(first));
}

/// A renderer backend together with the reconciliation session it drives.
/// A session is built from a document and the layout cache, drains input
/// events into messages, draws a snapshot, and hands the cache back.
pub trait Renderer<E, M>: Sized {
    type Cache;

    type Session;

    type Primitive;

    type Target;

    /// The document that a session was built from.
    spec fn document_of_session(session: Self::Session) -> Document<E>;

    /// The messages that draining `events` through a document yields.
    spec fn messages_of(doc: Document<E>, events: Vec<Event>) -> Vec<M>;

    /// The snapshot that a build of `doc` draws, whatever the cache held.
    spec fn picture_of(doc: Document<E>) -> Self::Primitive;

    /// The cache that a session holds, and hands back when consumed.
    spec fn cache_of_session(session: Self::Session) -> Self::Cache;

    /// The cache after a build of `doc` has brought `cache` up to date.
    spec fn refreshed(doc: Document<E>, cache: Self::Cache) -> Self::Cache;

    /// The empty cache that a run starts from.
    spec fn fresh() -> Self::Cache;

    /// The snapshot that a target shows.
    spec fn shown(target: Self::Target) -> Self::Primitive;

    fn empty_cache() -> (c: Self::Cache)
        ensures
            c == Self::fresh(),
    ;

    fn build(&mut self, doc: Document<E>, cache: Self::Cache) -> (s: Self::Session)
        ensures
            Self::document_of_session(s) == doc,
            Self::cache_of_session(s) == Self::refreshed(doc, cache),
    ;

    fn drain(session: &mut Self::Session, events: Vec<Event>) -> (messages: Vec<M>)
        ensures
            Self::document_of_session(*final(session)) == Self::document_of_session(*old(session)),
            Self::cache_of_session(*final(session)) == Self::cache_of_session(*old(session)),
            messages@ == Self::messages_of(Self::document_of_session(*old(session)), events)@,
    ;

    fn draw_session(&mut self, session: &Self::Session) -> (p: Self::Primitive)
        ensures
            p == Self::picture_of(Self::document_of_session(*session)),
    ;

    fn into_cache(session: Self::Session) -> (c: Self::Cache)
        ensures
            c == Self::cache_of_session(session),
    ;

    fn target(&mut self, width: u16, height: u16) -> Self::Target;

    fn draw(&mut self, target: &mut Self::Target, primitive: &Self::Primitive)
        ensures
            Self::shown(*final(target)) == *primitive,
    ;
}

/// The layout cache of an application's renderer.
pub type CacheOf<A> = <<A as Application>::Renderer as Renderer<
    <A as Application>::Element,
    <A as Application>::Message,
>>::Cache;

/// The drawable snapshot of an application's renderer.
pub type PrimitiveOf<A> = <<A as Application>::Renderer as Renderer<
    <A as Application>::Element,
    <A as Application>::Message,
>>::Primitive;

/// The drawing target of an application's renderer.
pub type TargetOf<A> = <<A as Application>::Renderer as Renderer<
    <A as Application>::Element,
    <A as Application>::Message,
>>::Target;

/// The snapshot that the application's renderer draws for `doc`.
pub open spec fn snapshot_of<A: Application>(doc: Document<A::Element>) -> PrimitiveOf<A> {
    <A::Renderer as Renderer<A::Element, A::Message>>::picture_of(doc)
}

/// The messages that the application's renderer yields for `events` on `doc`.
pub open spec fn messages_for<A: Application>(doc: Document<A::Element>, events: Vec<Event>) -> Seq<A::Message> {
    <A::Renderer as Renderer<A::Element, A::Message>>::messages_of(doc, events)@
}

/// The cache that the application's renderer leaves after a build of `doc`.
pub open spec fn refreshed_cache<A: Application>(doc: Document<A::Element>, cache: CacheOf<A>) -> CacheOf<A> {
    <A::Renderer as Renderer<A::Element, A::Message>>::refreshed(doc, cache)
}

/// The empty cache of the application's renderer.
pub open spec fn fresh_cache<A: Application>() -> CacheOf<A> {
    <A::Renderer as Renderer<A::Element, A::Message>>::fresh()
}

/// The snapshot that a target of the application's renderer shows.
pub open spec fn shown_on<A: Application>(target: TargetOf<A>) -> PrimitiveOf<A> {
    <A::Renderer as Renderer<A::Element, A::Message>>::shown(target)
}

/// Builds the document for the application's current state.
pub fn document<A: Application>(application: &mut A, width: u16, height: u16) -> (d: Document<A::Element>)
    ensures
        *final(application) == *old(application),
        d == document_of(*old(application), width, height),
{
    let content = application.view();
    Document { width, height, content }
}

} // verus!
