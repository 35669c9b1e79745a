//! The per-connection dispatcher.
//!
//! A connection is a state machine with two states. While it is `Reading`,
//! each decoded request is resolved against the registry: a hit becomes a job
//! for the connection's workers, a miss is answered at once with a "not
//! found" reply. A frame that cannot be decoded, or a request that cannot be
//! answered at all, ends the connection: it moves to `Closed`, which it never
//! leaves. The caller owns the socket; it reports what it read as an
//! [`Event`] and carries out the [`Action`] it gets back.

use crate::envelope::{
    answerable, error_reply_of, frame_of, law_reply_answers_its_request, Envelope, EnvelopeView,
};
use crate::key::{make_service_key, service_key};
use crate::protocol::{protocol_encode, service_error_key};
use crate::registry::{resolved, Registry};
use vstd::prelude::*;
use vstd::string::StringExecFns;

verus! {

/// The state of one connection.
#[derive(Clone, Copy, Debug, PartialEq, Eq, Structural)]
pub enum ConnState {
    /// Waiting for the next request.
    Reading,
    /// Shut down; nothing more is read or written.
    Closed,
}

/// What the caller read from the connection.
#[derive(Debug, PartialEq, Eq)]
pub enum Event {
    /// One whole request.
    Request(Envelope),
    /// Bytes that do not decode to a request, or the end of the stream.
    DecodeFailed,
}

/// An event as mathematical values.
pub enum EventView {
    Request(EnvelopeView),
    DecodeFailed,
}

impl View for Event {
    type V = EventView;

    open spec fn view(&self) -> EventView {
        match *self {
            Event::Request(request) => EventView::Request(request@),
            Event::DecodeFailed => EventView::DecodeFailed,
        }
    }
}

/// What the caller is to do next.
#[derive(Debug, PartialEq, Eq)]
pub enum Action<H> {
    /// Hand the request and its handler to a worker, and go on reading.
    Execute { handler: H, request: Envelope },
    /// Write this frame to the connection, and go on reading.
    Reply { frame: Vec<u8> },
    /// Shut the connection down in both directions, and stop.
    Shutdown,
    /// Nothing: the connection is closed already.
    Idle,
}

/// An action as mathematical values.
pub enum ActionView<H> {
    Execute { handler: H, request: EnvelopeView },
    Reply { frame: Seq<u8> },
    Shutdown,
    Idle,
}

impl<H> View for Action<H> {
    type V = ActionView<H>;

    open spec fn view(&self) -> ActionView<H> {
        match *self {
            Action::Execute { handler, request } => ActionView::Execute {
                handler: handler,
                request: request@,
            },
            Action::Reply { frame } => ActionView::Reply { frame: frame@ },
            Action::Shutdown => ActionView::Shutdown,
            Action::Idle => ActionView::Idle,
        }
    }
}

/// The text that tells a peer that no handler is registered under `key`.
pub open spec fn not_found_text(key: Seq<char>) -> Seq<char> {
    "service "@ + key + " not found"@
}

/// The reply to a request for which no handler is registered: the empty
/// response with the "not found" text as its service error.
pub open spec fn not_found_reply_of(req: EnvelopeView) -> EnvelopeView {
    error_reply_of(req, not_found_text(service_key(req.service_path, req.service_method)))
}

/// One step of a connection: the state it moves to and the action it asks
/// for, given its state, the registered services and the event.
pub open spec fn step<H>(state: ConnState, services: Map<Seq<char>, H>, event: EventView) -> (
    ConnState,
    ActionView<H>,
) {
    match state {
        ConnState::Closed => (ConnState::Closed, ActionView::Idle),
        ConnState::Reading => match event {
            EventView::DecodeFailed => (ConnState::Closed, ActionView::Shutdown),
            EventView::Request(req) => if !answerable(req.header) {
                (ConnState::Closed, ActionView::Shutdown)
            } else {
                match resolved(services, req.service_path, req.service_method) {
                    Some(handler) => (
                        ConnState::Reading,
                        ActionView::Execute { handler: handler, request: req },
                    ),
                    None => (
                        ConnState::Reading,
                        ActionView::Reply { frame: frame_of(not_found_reply_of(req)) },
                    ),
                }
            },
        },
    }
}

/// The "not found" text for `key`.
pub fn not_found_message(key: &str) -> (text: String)
    ensures
        text@ == not_found_text(key@),
{
    let mut text = String::from_str("service ");
    text.append(key);
    text.append(" not found");
    text
}

/// The reply that tells the peer that no handler is registered for the
/// request's path and method, or `None` where the request cannot be
/// answered.
pub fn not_found_reply(request: &Envelope) -> (r: Option<Envelope>)
    ensures
        match r {
            Some(reply) => answerable(request.header@) && reply@ == not_found_reply_of(request@),
            None => !answerable(request.header@),
        },
{
    request.error_reply(not_found_for(request))
}

/// The "not found" text for the key of the request's path and method.
fn not_found_for(request: &Envelope) -> (text: String)
    ensures
        text@ == not_found_text(service_key(request@.service_path, request@.service_method)),
{
    let key = make_service_key(request.service_path.as_str(), request.service_method.as_str());
    not_found_message(key.as_str())
}

/// One connection.
#[derive(Debug)]
pub struct Connection {
    state: ConnState,
}

impl View for Connection {
    type V = ConnState;

    closed spec fn view(&self) -> ConnState {
        self.state
    }
}

impl Connection {
    /// A connection that has just been accepted: it is `Reading`.
    pub fn new() -> (c: Connection)
        ensures
            c@ == ConnState::Reading,
    {
        Connection { state: ConnState::Reading }
    }

    /// The state of the connection.
    pub fn state(&self) -> (s: ConnState)
        ensures
            s == self@,
    {
        self.state
    }

    /// Whether the connection has been shut down.
    pub fn is_closed(&self) -> (b: bool)
        ensures
            b == (self@ == ConnState::Closed),
    {
        match self.state {
            ConnState::Closed => true,
            ConnState::Reading => false,
        }
    }

    /// Takes one event and says what to do about it; see [`step`].
    pub fn on_event<H: Copy>(&mut self, services: &Registry<H>, event: Event) -> (action: Action<H>)
        ensures
            (final(self)@, action@) == step(old(self)@, services@, event@),
    {
        if self.is_closed() {
            return Action::Idle;
        }
        match event {
            Event::DecodeFailed => {
                self.state = ConnState::Closed;
                Action::Shutdown
            },
            Event::Request(request) => {
                if !request.is_answerable() {
                    self.state = ConnState::Closed;
                    return Action::Shutdown;
                }
                match services.lookup(
                    request.service_path.as_str(),
                    request.service_method.as_str(),
                ) {
                    Some(handler) => Action::Execute { handler, request },
                    None => {
                        let reply = request.answer_with_error(not_found_for(&request));
                        Action::Reply { frame: protocol_encode(&reply) }
                    },
                }
            },
        }
    }
}

/// Whether an event ends the connection: a frame that does not decode, or a
/// request that cannot be answered.
pub open spec fn fatal(event: EventView) -> bool {
    match event {
        EventView::DecodeFailed => true,
        EventView::Request(req) => !answerable(req.header),
    }
}

/// The state of a connection that was in `state` and then took `events`, in
/// order.
pub open spec fn state_after<H>(
    state: ConnState,
    services: Map<Seq<char>, H>,
    events: Seq<EventView>,
) -> ConnState
    decreases events.len(),
{
    if events.len() == 0 {
        state
    } else {
        step(state_after(state, services, events.drop_last()), services, events.last()).0
    }
}

/// The action that a connection which starts in `state` asks for on the
/// `i`-th of `events`.
pub open spec fn action_at<H>(
    state: ConnState,
    services: Map<Seq<char>, H>,
    events: Seq<EventView>,
    i: int,
) -> ActionView<H> {
    step(state_after(state, services, events.subrange(0, i)), services, events[i]).1
}

/// A request for a key without a handler is answered, not dropped: an open
/// connection replies with the frame of a response that names the request's
/// path and method, carries its sequence bytes, has no payload, and reports
/// `service {key} not found` under the service error key. The connection
/// stays open.
pub proof fn law_miss_is_answered<H>(services: Map<Seq<char>, H>, req: EnvelopeView)
    requires
        answerable(req.header),
        !services.contains_key(service_key(req.service_path, req.service_method)),
    ensures
        step(ConnState::Reading, services, EventView::Request(req)) == (
            ConnState::Reading,
            ActionView::<H>::Reply { frame: frame_of(not_found_reply_of(req)) },
        ),
        not_found_reply_of(req).metadata == seq![
            (
                service_error_key(),
                "service "@ + service_key(req.service_path, req.service_method) + " not found"@,
            ),
        ],
        not_found_reply_of(req).payload.len() == 0,
        not_found_reply_of(req).service_path == req.service_path,
        not_found_reply_of(req).service_method == req.service_method,
        not_found_reply_of(req).header.subrange(4, 12) == req.header.subrange(4, 12),
{
    law_reply_answers_its_request(req);
}

/// A request for a key with a handler becomes a job for that handler, with
/// the request as it came; the connection stays open.
pub proof fn law_hit_is_executed<H>(services: Map<Seq<char>, H>, req: EnvelopeView)
    requires
        answerable(req.header),
        services.contains_key(service_key(req.service_path, req.service_method)),
    ensures
        step(ConnState::Reading, services, EventView::Request(req)) == (
            ConnState::Reading,
            ActionView::Execute {
                handler: services[service_key(req.service_path, req.service_method)],
                request: req,
            },
        ),
{
}

/// A closed connection stays closed, whatever it is told.
pub proof fn law_closed_is_terminal<H>(services: Map<Seq<char>, H>, events: Seq<EventView>)
    ensures
        state_after(ConnState::Closed, services, events) == ConnState::Closed,
    decreases events.len(),
{
    if events.len() > 0 {
        law_closed_is_terminal(services, events.drop_last());
    }
}

/// A connection stays open as long as every frame decodes to a request that
/// can be answered: neither a request without a handler nor one whose
/// handler fails closes it.
pub proof fn law_sound_requests_keep_reading<H>(
    services: Map<Seq<char>, H>,
    events: Seq<EventView>,
)
    requires
        forall|i: int| 0 <= i < events.len() ==> !fatal(events[i]),
    ensures
        state_after(ConnState::Reading, services, events) == ConnState::Reading,
    decreases events.len(),
{
    if events.len() > 0 {
        let init = events.drop_last();
        assert forall|i: int| 0 <= i < init.len() implies !fatal(init[i]) by {
            assert(init[i] == events[i]);
        }
        law_sound_requests_keep_reading(services, init);
        assert(!fatal(events[events.len() - 1]));
    }
}

/// A frame that does not decode, or a request that cannot be answered, gets
/// no reply and ends the connection: the event is answered by a shutdown, or
/// by nothing where the connection was closed already, and the connection is
/// closed after it and after all that follows.
pub proof fn law_failure_ends_connection<H>(
    services: Map<Seq<char>, H>,
    events: Seq<EventView>,
    i: int,
)
    requires
        0 <= i < events.len(),
        fatal(events[i]),
    ensures
        action_at(ConnState::Reading, services, events, i) == ActionView::<H>::Shutdown
            || action_at(ConnState::Reading, services, events, i) == ActionView::<H>::Idle,
        state_after(ConnState::Reading, services, events.subrange(0, i + 1)) == ConnState::Closed,
        state_after(ConnState::Reading, services, events) == ConnState::Closed,
{
    let upto = events.subrange(0, i + 1);
    let rest = events.subrange(i + 1, events.len() as int);
    assert(upto.drop_last() =~= events.subrange(0, i));
    assert(upto.last() == events[i]);
    assert(upto + rest =~= events);
    lemma_state_after_concat(ConnState::Reading, services, upto, rest);
    law_closed_is_terminal(services, rest);
}

/// Nothing follows a failure: every event after one that ended the
/// connection is answered by nothing.
pub proof fn law_nothing_after_failure<H>(
    services: Map<Seq<char>, H>,
    events: Seq<EventView>,
    i: int,
    j: int,
)
    requires
        0 <= i < j < events.len(),
        fatal(events[i]),
    ensures
        action_at(ConnState::Reading, services, events, j) == ActionView::<H>::Idle,
{
    let before = events.subrange(0, j);
    assert(before[i] == events[i]);
    law_failure_ends_connection(services, before, i);
}

/// Taking `first` and then `rest` is taking the two in one run.
proof fn lemma_state_after_concat<H>(
    state: ConnState,
    services: Map<Seq<char>, H>,
    first: Seq<EventView>,
    rest: Seq<EventView>,
)
    ensures
        state_after(state, services, first + rest) == state_after(
            state_after(state, services, first),
            services,
            rest,
        ),
    decreases rest.len(),
{
    if rest.len() == 0 {
        assert(first + rest =~= first);
    } else {
        lemma_state_after_concat(state, services, first, rest.drop_last());
        assert((first + rest).drop_last() =~= first + rest.drop_last());
        assert((first + rest).last() == rest.last());
    }
}

} // verus!
