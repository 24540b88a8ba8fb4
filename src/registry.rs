use vstd::prelude::*;
use vstd::utf8::{decode_utf8, valid_utf8};

verus! {

/// The kinds of engine events that a handler can be registered for.
#[derive(Debug, Clone, Copy, PartialEq, Eq, Structural)]
pub enum EventKind {
    Connect,
    Subscribe,
    Publish,
    Message,
}

/// One handler per event kind, at most. The engine's single user-data slot
/// points at one registry for the life of the session, so registering a
/// handler for one kind never touches the handlers of the others.
pub struct CallbackRegistry<H> {
    on_connect: Option<H>,
    on_subscribe: Option<H>,
    on_publish: Option<H>,
    on_message: Option<H>,
}

impl<H> CallbackRegistry<H> {
    /// The handler registered for `kind`, if any.
    pub closed spec fn handler_of(&self, kind: EventKind) -> Option<H> {
        match kind {
            EventKind::Connect => self.on_connect,
            EventKind::Subscribe => self.on_subscribe,
            EventKind::Publish => self.on_publish,
            EventKind::Message => self.on_message,
        }
    }

    /// The registry after `handler` is registered for `kind`.
    pub closed spec fn with_handler(self, kind: EventKind, handler: H) -> Self {
        match kind {
            EventKind::Connect => CallbackRegistry { on_connect: Some(handler), ..self },
            EventKind::Subscribe => CallbackRegistry { on_subscribe: Some(handler), ..self },
            EventKind::Publish => CallbackRegistry { on_publish: Some(handler), ..self },
            EventKind::Message => CallbackRegistry { on_message: Some(handler), ..self },
        }
    }

    /// A registry with no handler.
    pub fn new() -> (r: Self)
        ensures
            forall|k: EventKind| (#[trigger] r.handler_of(k)) is None,
    {
        CallbackRegistry { on_connect: None, on_subscribe: None, on_publish: None, on_message: None }
    }

    /// Registers `handler` for `kind`, replacing the one registered before;
    /// the handlers of the other kinds stay as they were.
    pub fn register(&mut self, kind: EventKind, handler: H)
        ensures
            *final(self) == old(self).with_handler(kind, handler),
            final(self).handler_of(kind) == Some(handler),
            forall|k: EventKind| k != kind ==> #[trigger] final(self).handler_of(k) == old(self).handler_of(k),
    {
        match kind {
            EventKind::Connect => self.on_connect = Some(handler),
            EventKind::Subscribe => self.on_subscribe = Some(handler),
            EventKind::Publish => self.on_publish = Some(handler),
            EventKind::Message => self.on_message = Some(handler),
        }
    }

    /// The handler registered for `kind`, if any.
    pub fn handler(&self, kind: EventKind) -> (r: Option<&H>)
        ensures
            match r {
                Some(h) => self.handler_of(kind) == Some(*h),
                None => self.handler_of(kind) is None,
            },
    {
        match kind {
            EventKind::Connect => self.on_connect.as_ref(),
            EventKind::Subscribe => self.on_subscribe.as_ref(),
            EventKind::Publish => self.on_publish.as_ref(),
            EventKind::Message => self.on_message.as_ref(),
        }
    }

    /// Whether a handler is registered for `kind`.
    pub fn has_handler(&self, kind: EventKind) -> (r: bool)
        ensures
            r == self.handler_of(kind) is Some,
    {
        match kind {
            EventKind::Connect => self.on_connect.is_some(),
            EventKind::Subscribe => self.on_subscribe.is_some(),
            EventKind::Publish => self.on_publish.is_some(),
            EventKind::Message => self.on_message.is_some(),
        }
    }
}

/// Registering a handler for one kind makes it that kind's handler and
/// leaves the handler of every other kind as it was.
pub proof fn lemma_register_isolated<H>(reg: CallbackRegistry<H>, kind: EventKind, handler: H, other: EventKind)
    ensures
        reg.with_handler(kind, handler).handler_of(kind) == Some(handler),
        other != kind ==> reg.with_handler(kind, handler).handler_of(other) == reg.handler_of(other),
{
}

/// An event that the engine reports on its network thread.
pub enum Event {
    /// The result of a connect or reconnect.
    Connect(i32),
    /// A subscribe was acknowledged; the message id.
    Subscribe(i32),
    /// A publish was sent; the message id.
    Publish(i32),
    /// A message arrived on a topic, with its payload.
    Message(String, Vec<u8>),
}

/// What to do with an event.
pub enum Delivery {
    /// Nobody listens for the event: it is dropped.
    Dropped,
    /// Call the handler of this kind with the code.
    Code(EventKind, i32),
    /// Call the message handler with the text.
    Text(String),
    /// The payload of a message is not UTF-8 text: report it on the fault
    /// path, not to the message handler.
    Malformed(Vec<u8>),
}

/// The kind of an event.
pub open spec fn kind_of(e: Event) -> EventKind {
    match e {
        Event::Connect(_) => EventKind::Connect,
        Event::Subscribe(_) => EventKind::Subscribe,
        Event::Publish(_) => EventKind::Publish,
        Event::Message(_, _) => EventKind::Message,
    }
}

/// Relies on std::str::from_utf8: the bytes as text where they are valid
/// UTF-8, and nothing otherwise.
#[verifier::external_body]
fn utf8_text<'a>(bytes: &'a [u8]) -> (r: Option<&'a str>)
    ensures
        r is Some <==> valid_utf8(bytes@),
        r matches Some(s) ==> s@ == decode_utf8(bytes@),
{
    std::str::from_utf8(bytes).ok()
}

/// Decodes a message payload as UTF-8 text.
pub fn decode_payload(payload: &[u8]) -> (r: Option<String>)
    ensures
        r is Some <==> valid_utf8(payload@),
        r matches Some(s) ==> s@ == decode_utf8(payload@),
{
    match utf8_text(payload) {
        Some(s) => Some(s.to_owned()),
        None => None,
    }
}

impl<H> CallbackRegistry<H> {
    /// Decides what an event turns into: dropped when no handler of its kind
    /// is registered; else the code for a connect, subscribe or publish
    /// event, and for a message its payload as text, or the payload on the
    /// fault path where it is not UTF-8.
    pub fn route(&self, event: Event) -> (r: Delivery)
        ensures
            self.handler_of(kind_of(event)) is None ==> r is Dropped,
            self.handler_of(kind_of(event)) is Some ==> match event {
                Event::Connect(c) => r == Delivery::Code(EventKind::Connect, c),
                Event::Subscribe(c) => r == Delivery::Code(EventKind::Subscribe, c),
                Event::Publish(c) => r == Delivery::Code(EventKind::Publish, c),
                Event::Message(_, p) => if valid_utf8(p@) {
                    r matches Delivery::Text(s) && s@ == decode_utf8(p@)
                } else {
                    r matches Delivery::Malformed(b) && b@ == p@
                },
            },
    {
        match event {
            Event::Connect(c) => if self.has_handler(EventKind::Connect) {
                Delivery::Code(EventKind::Connect, c)
            } else {
                Delivery::Dropped
            },
            Event::Subscribe(c) => if self.has_handler(EventKind::Subscribe) {
                Delivery::Code(EventKind::Subscribe, c)
            } else {
                Delivery::Dropped
            },
            Event::Publish(c) => if self.has_handler(EventKind::Publish) {
                Delivery::Code(EventKind::Publish, c)
            } else {
                Delivery::Dropped
            },
            Event::Message(_, p) => if self.has_handler(EventKind::Message) {
                match decode_payload(p.as_slice()) {
                    Some(s) => Delivery::Text(s),
                    None => Delivery::Malformed(p),
                }
            } else {
                Delivery::Dropped
            },
        }
    }
}

} // verus!
