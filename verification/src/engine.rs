//! The decisions of the run loop.
//!
//! The run loop alternates between reading lines from the transport and
//! taking messages that client handles and handlers queued. This module
//! decides, for each of those events, what follows: which answer is queued,
//! which handler runs, which waiting request is completed, which message is
//! written, and when the loop stops. Performing these steps (the I/O, the
//! channels, the spawning of handlers) is left to the caller.
use vstd::prelude::*;

use std::collections::HashMap;
use std::io::Error as IoError;
use serde_json::Error as JsonError;

use crate::codes::ErrorCode;
use crate::errors::{ChannelError, ClientError, RuntimeError, SerializationError, TransportError};
use crate::json::{json_line, parse_json_line, JsonValue, ParsedLine};
use crate::protocol::{
    invalid_request_response, is_error_response, method_not_found_response, parse_error_response,
    serialize_params, spec_serialize_params,
};
use crate::registry::Registry;
use crate::types::{Id, Message, Notification, Params, Request, Response, Version};

verus! {

broadcast use vstd::std_specs::hash::group_hash_axioms;

/// The handlers by name once `handler` is registered for `name`.
pub open spec fn registered<H>(handlers: Map<Seq<char>, H>, name: Seq<char>, handler: H) -> Map<
    Seq<char>,
    H,
> {
    handlers.insert(name, handler)
}

/// The handlers of requests and of notifications, by method name.
pub struct Router<M, N> {
    methods: Registry<M>,
    notifications: Registry<N>,
}

impl<M, N> Router<M, N> {
    pub closed spec fn wf(&self) -> bool {
        self.methods.wf() && self.notifications.wf()
    }

    /// The request handler registered for each method name.
    pub closed spec fn methods(&self) -> Map<Seq<char>, M> {
        self.methods.view()
    }

    /// The notification handler registered for each method name.
    pub closed spec fn notifications(&self) -> Map<Seq<char>, N> {
        self.notifications.view()
    }

    pub fn new() -> (r: Router<M, N>)
        ensures
            r.wf(),
            r.methods() == Map::<Seq<char>, M>::empty(),
            r.notifications() == Map::<Seq<char>, N>::empty(),
    {
        Router { methods: Registry::new(), notifications: Registry::new() }
    }

    /// Registers the handler of requests for `method`, replacing any handler
    /// registered for it before.
    pub fn add_method(&mut self, method: String, handler: M)
        requires
            old(self).wf(),
        ensures
            final(self).wf(),
            final(self).methods() == old(self).methods().insert(method@, handler),
            final(self).methods() == registered(old(self).methods(), method@, handler),
            final(self).notifications() == old(self).notifications(),
    {
        self.methods.insert(method, handler);
    }

    /// Registers the handler of notifications for `method`, replacing any
    /// handler registered for it before.
    pub fn add_notification(&mut self, method: String, handler: N)
        requires
            old(self).wf(),
        ensures
            final(self).wf(),
            final(self).notifications() == old(self).notifications().insert(method@, handler),
            final(self).notifications() == registered(old(self).notifications(), method@, handler),
            final(self).methods() == old(self).methods(),
    {
        self.notifications.insert(method, handler);
    }
}

/// The requests sent to the peer that still wait for their answer, each
/// with what is to receive that answer, and the identifier the next request
/// will carry.
pub struct Session<W> {
    pending: HashMap<i64, W>,
    next_request_id: i64,
}

impl<W> Session<W> {
    /// The receivers of the answers still awaited, by request identifier.
    pub closed spec fn pending(&self) -> Map<i64, W> {
        self.pending@
    }

    /// The identifier of the next request.
    pub closed spec fn next_id(&self) -> i64 {
        self.next_request_id
    }

    /// Identifiers start at 1, and every awaited identifier was issued
    /// before the next one.
    pub open spec fn wf(&self) -> bool {
        &&& 1 <= self.next_id()
        &&& forall|k: i64| #[trigger] self.pending().contains_key(k) ==> 1 <= k < self.next_id()
    }

    pub fn new() -> (s: Session<W>)
        ensures
            s.wf(),
            s.pending() == Map::<i64, W>::empty(),
            s.next_id() == 1,
    {
        Session { pending: HashMap::new(), next_request_id: 1 }
    }

    /// The identifier that the next request will carry.
    pub fn next_request_id(&self) -> (id: i64)
        ensures
            id == self.next_id(),
    {
        self.next_request_id
    }

    /// Gives the next identifier to a request for `method`, and keeps
    /// `waiter` as the receiver of its answer.
    pub fn issue(&mut self, method: String, params: Option<Params>, waiter: W) -> (r: Request)
        requires
            old(self).wf(),
            old(self).next_id() < i64::MAX,
        ensures
            final(self).wf(),
            r == (Request {
                jsonrpc: Some(Version::V2),
                method,
                params,
                id: Id::Number(old(self).next_id()),
            }),
            !old(self).pending().contains_key(old(self).next_id()),
            final(self).pending() == old(self).pending().insert(old(self).next_id(), waiter),
            final(self).next_id() == old(self).next_id() + 1,
    {
        let id = self.next_request_id;
        self.next_request_id = id + 1;
        self.pending.insert(id, waiter);
        assert forall|k: i64| #[trigger] self.pending().contains_key(k) implies 1 <= k
            < self.next_id() by {
            if k != id {
                assert(old(self).pending().contains_key(k));
            }
        }
        Request { jsonrpc: Some(Version::V2), method, params, id: Id::Number(id) }
    }

    /// Takes out the receiver waiting for the answer with identifier `id`,
    /// if there is one.
    pub fn take_waiter(&mut self, id: &Id) -> (w: Option<W>)
        requires
            old(self).wf(),
        ensures
            final(self).wf(),
            final(self).next_id() == old(self).next_id(),
            final(self).pending() == pending_after_answer(old(self).pending(), *id),
            w == waiter_for(old(self).pending(), *id),
    {
        match id {
            Id::Number(n) => self.pending.remove(n),
            _ => None,
        }
    }
}

/// The receiver waiting for the answer with identifier `id`: only numbered
/// requests are issued, so only a number can match.
pub open spec fn waiter_for<W>(pending: Map<i64, W>, id: Id) -> Option<W> {
    match id {
        Id::Number(n) => if pending.contains_key(n) {
            Some(pending[n])
        } else {
            None
        },
        _ => None,
    }
}

/// The receivers still waiting once the answer with identifier `id` arrived.
pub open spec fn pending_after_answer<W>(pending: Map<i64, W>, id: Id) -> Map<i64, W> {
    match id {
        Id::Number(n) => pending.remove(n),
        _ => pending,
    }
}

/// A message that client handles and handlers hand to the run loop.
pub enum ChannelMessage<W> {
    /// A request to send, with the receiver of its answer.
    Request { method: String, params: Option<Params>, waiter: W },
    /// An answer to a request of the peer.
    Response(Response),
    /// A notification to send.
    Notification(Notification),
}

/// The message that a client hands to the run loop to send a request for
/// `method`, or why it cannot: the parameters are shaped as for any message.
pub fn request_message<W>(
    method: String,
    params: Result<JsonValue, JsonError>,
    waiter: W,
) -> (r: Result<ChannelMessage<W>, ClientError>)
    ensures
        match spec_serialize_params(params) {
            Ok(p) => r matches Ok(ChannelMessage::Request { method: m, params: q, waiter: w })
                && m == method && q == p && w == waiter,
            Err(e) => r == Err::<ChannelMessage<W>, ClientError>(e),
        },
{
    match serialize_params(params) {
        Ok(params) => Ok(ChannelMessage::Request { method, params, waiter }),
        Err(err) => Err(err),
    }
}

/// The byte that ends each message on the transport.
pub const LINE_FEED: u8 = 10;

/// `r` is what the run loop writes for the encoding `encoded` of a message:
/// the encoding followed by a line feed, or, when the message could not be
/// encoded, the failure that stops the run loop.
pub open spec fn framed(encoded: Result<Vec<u8>, JsonError>, r: Result<Vec<u8>, RuntimeError>) -> bool {
    match encoded {
        Ok(bytes) => r matches Ok(out) && out@ == bytes@.push(LINE_FEED),
        Err(e) => r == Err::<Vec<u8>, RuntimeError>(
            RuntimeError::Serialization(SerializationError::SerializeMessage(e)),
        ),
    }
}

/// The bytes written to the transport for an encoded message: the encoding
/// followed by a line feed, which ends the message. A message that could not
/// be encoded stops the run loop.
pub fn frame(encoded: Result<Vec<u8>, JsonError>) -> (r: Result<Vec<u8>, RuntimeError>)
    ensures
        framed(encoded, r),
{
    match encoded {
        Ok(bytes) => {
            let mut out = bytes;
            out.push(LINE_FEED);
            Ok(out)
        },
        Err(err) => Err(RuntimeError::Serialization(SerializationError::SerializeMessage(err))),
    }
}

/// `r` is how the run loop goes on after writing to the transport with the
/// outcome `written`: on, or stopped by the write failure.
pub open spec fn write_outcome(written: Result<(), IoError>, r: Result<(), RuntimeError>) -> bool {
    match written {
        Ok(()) => r == Ok::<(), RuntimeError>(()),
        Err(e) => r == Err::<(), RuntimeError>(RuntimeError::Transport(TransportError::Write(e))),
    }
}

/// The step after writing to the transport (the message, or the flush that
/// pushes it out): a write failure stops the run loop with that failure.
pub fn on_write(written: Result<(), IoError>) -> (r: Result<(), RuntimeError>)
    ensures
        write_outcome(written, r),
{
    match written {
        Ok(()) => Ok(()),
        Err(err) => Err(RuntimeError::Transport(TransportError::Write(err))),
    }
}

/// `written` and `after` are what the run loop writes, and how the session
/// stands, once it took `next` from its channel with the session `before`.
pub open spec fn outbound_step<W>(
    before: Session<W>,
    next: Option<ChannelMessage<W>>,
    after: Session<W>,
    written: Result<Message, RuntimeError>,
) -> bool {
    match next {
        None => {
            &&& written == Err::<Message, RuntimeError>(
                RuntimeError::Channel(ChannelError::MessageChannelClosed),
            )
            &&& after == before
        },
        Some(ChannelMessage::Request { method, params, waiter }) => {
            &&& written == Ok::<Message, RuntimeError>(
                Message::Request(
                    Request {
                        jsonrpc: Some(Version::V2),
                        method,
                        params,
                        id: Id::Number(before.next_id()),
                    },
                ),
            )
            &&& after.pending() == before.pending().insert(
                before.next_id(),
                waiter,
            )
            &&& after.next_id() == before.next_id() + 1
        },
        Some(ChannelMessage::Response(response)) => {
            &&& written == Ok::<Message, RuntimeError>(Message::Response(response))
            &&& after == before
        },
        Some(ChannelMessage::Notification(notification)) => {
            &&& written == Ok::<Message, RuntimeError>(Message::Notification(notification))
            &&& after == before
        },
    }
}

/// What the run loop writes to the transport for the message it took from
/// its channel, or why it stops: the channel closes only when no sender is left.
pub fn outbound<W>(session: &mut Session<W>, next: Option<ChannelMessage<W>>) -> (r: Result<
    Message,
    RuntimeError,
>)
    requires
        old(session).wf(),
        next matches Some(ChannelMessage::Request { .. }) ==> old(session).next_id() < i64::MAX,
    ensures
        final(session).wf(),
        outbound_step(*old(session), next, *final(session), r),
{
    match next {
        None => Err(RuntimeError::Channel(ChannelError::MessageChannelClosed)),
        Some(ChannelMessage::Request { method, params, waiter }) => {
            let request = session.issue(method, params, waiter);
            Ok(Message::Request(request))
        },
        Some(ChannelMessage::Response(response)) => Ok(Message::Response(response)),
        Some(ChannelMessage::Notification(notification)) => Ok(
            Message::Notification(notification),
        ),
    }
}

/// What to do with one line read from the transport: answer it at once, or
/// decode each of these values as a message.
pub enum LinePlan {
    Reply(Response),
    Decode(Vec<serde_json::Value>),
}

/// `plan` is the plan for the parsed line `parsed`.
pub open spec fn planned(parsed: ParsedLine, plan: LinePlan) -> bool {
    match parsed {
        ParsedLine::Malformed => plan matches LinePlan::Reply(r) && is_error_response(
            r,
            ErrorCode::ParseError,
            "Parse error"@,
            Id::Null,
        ),
        ParsedLine::Batch(items) => if items@.len() == 0 {
            plan matches LinePlan::Reply(r) && is_error_response(
                r,
                ErrorCode::InvalidRequest,
                "Invalid Request"@,
                Id::Null,
            )
        } else {
            plan == LinePlan::Decode(items)
        },
        ParsedLine::Single(value) => plan matches LinePlan::Decode(values) && values@ == seq![
            value,
        ],
    }
}

/// The plan for a parsed line: a line that is not JSON is answered with a
/// parse error, an empty batch with an invalid request; the items of any
/// other batch, or the single value, are to be decoded as messages, in order.
pub fn plan_line(parsed: ParsedLine) -> (plan: LinePlan)
    ensures
        planned(parsed, plan),
{
    match parsed {
        ParsedLine::Malformed => LinePlan::Reply(parse_error_response()),
        ParsedLine::Batch(items) => {
            if items.len() == 0 {
                LinePlan::Reply(invalid_request_response())
            } else {
                LinePlan::Decode(items)
            }
        },
        ParsedLine::Single(value) => {
            let mut values = Vec::new();
            values.push(value);
            LinePlan::Decode(values)
        },
    }
}

/// The plan for a line of text, parsed as JSON.
pub fn read_line(line: &str) -> (plan: LinePlan)
    ensures
        planned(json_line(line@), plan),
{
    plan_line(parse_json_line(line))
}

/// What follows an attempt to read a line.
pub enum ReadStep {
    /// The run loop ends with this outcome.
    Stop(Result<(), RuntimeError>),
    /// A line was read; this is its plan.
    Line(LinePlan),
}

/// `step` is what follows the attempt to read a line with outcome `read`:
/// the end of input ends the run loop normally, a read failure ends it with
/// that failure, and a line is planned.
pub open spec fn read_outcome(read: Result<Option<String>, IoError>, step: ReadStep) -> bool {
    match read {
        Err(e) => step == ReadStep::Stop(Err(RuntimeError::Transport(TransportError::Read(e)))),
        Ok(None) => step == ReadStep::Stop(Ok(())),
        Ok(Some(line)) => step matches ReadStep::Line(plan) && planned(json_line(line@), plan),
    }
}

/// The step after reading from the transport: the end of input ends the run
/// loop normally, a read failure ends it with that failure, and a line is
/// planned.
pub fn on_read(read: Result<Option<String>, IoError>) -> (step: ReadStep)
    ensures
        read_outcome(read, step),
{
    match read {
        Err(err) => ReadStep::Stop(Err(RuntimeError::Transport(TransportError::Read(err)))),
        Ok(None) => ReadStep::Stop(Ok(())),
        Ok(Some(line)) => ReadStep::Line(read_line(line.as_str())),
    }
}

/// One thing to do for one decoded value of a line.
pub enum Action<'a, M, N, W> {
    /// Queue this answer for writing.
    Reply(Response),
    /// Run this request handler on the request.
    CallMethod(&'a M, Request),
    /// Run this notification handler on the notification.
    CallNotification(&'a N, Notification),
    /// Hand the answer to the receiver that waited for it.
    Deliver(W, Response),
    /// Nothing: a notification nobody handles, or an answer nobody waits for.
    Ignore,
}

/// `action` is what the protocol does with `item` (a decoded value, `None`
/// when the value is not a message) while `pending` wait for answers.
pub open spec fn routes_to<'a, M, N, W>(
    router: &Router<M, N>,
    pending: Map<i64, W>,
    item: Option<Message>,
    action: Action<'a, M, N, W>,
) -> bool {
    match item {
        None => action matches Action::Reply(r) && is_error_response(
            r,
            ErrorCode::InvalidRequest,
            "Invalid Request"@,
            Id::Null,
        ),
        Some(Message::Request(req)) => if router.methods().contains_key(req.method@) {
            action matches Action::CallMethod(h, r) && *h == router.methods()[req.method@] && r
                == req
        } else {
            action matches Action::Reply(r) && is_error_response(
                r,
                ErrorCode::MethodNotFound,
                "Method not found"@,
                req.id,
            )
        },
        Some(Message::Notification(n)) => if router.notifications().contains_key(n.method@) {
            action matches Action::CallNotification(h, m) && *h == router.notifications()[n.method@]
                && m == n
        } else {
            action is Ignore
        },
        Some(Message::Response(resp)) => match waiter_for(pending, resp.spec_id()) {
            Some(w) => action matches Action::Deliver(w2, r) && w2 == w && r == resp,
            None => action is Ignore,
        },
    }
}

/// The receivers still waiting after `item` was handled.
pub open spec fn pending_after<W>(pending: Map<i64, W>, item: Option<Message>) -> Map<i64, W> {
    match item {
        Some(Message::Response(resp)) => pending_after_answer(pending, resp.spec_id()),
        _ => pending,
    }
}

/// The receivers still waiting once the first `i` items were handled.
pub open spec fn pending_before<W>(pending: Map<i64, W>, items: Seq<Option<Message>>, i: int) -> Map<
    i64,
    W,
>
    decreases i,
{
    if i <= 0 {
        pending
    } else {
        pending_after(pending_before(pending, items, i - 1), items[i - 1])
    }
}

/// What to do with one decoded value.
fn route<'a, M, N, W>(
    router: &'a Router<M, N>,
    session: &mut Session<W>,
    item: Option<Message>,
) -> (action: Action<'a, M, N, W>)
    requires
        router.wf(),
        old(session).wf(),
    ensures
        final(session).wf(),
        final(session).next_id() == old(session).next_id(),
        final(session).pending() == pending_after(old(session).pending(), item),
        routes_to(router, old(session).pending(), item, action),
{
    match item {
        None => Action::Reply(invalid_request_response()),
        Some(Message::Request(request)) => match router.methods.get(&request.method) {
            Some(handler) => Action::CallMethod(handler, request),
            None => Action::Reply(method_not_found_response(request.id)),
        },
        Some(Message::Notification(notification)) => match router.notifications.get(
            &notification.method,
        ) {
            Some(handler) => Action::CallNotification(handler, notification),
            None => Action::Ignore,
        },
        Some(Message::Response(response)) => match session.take_waiter(response.id()) {
            Some(waiter) => Action::Deliver(waiter, response),
            None => Action::Ignore,
        },
    }
}

/// `actions` is what the protocol does with the decoded values `items` of one
/// line, in order, while `pending` wait for answers; `pending_end` is who
/// still waits afterwards.
pub open spec fn dispatched<'a, M, N, W>(
    router: &Router<M, N>,
    pending: Map<i64, W>,
    items: Seq<Option<Message>>,
    actions: Seq<Action<'a, M, N, W>>,
    pending_end: Map<i64, W>,
) -> bool {
    &&& actions.len() == items.len()
    &&& pending_end == pending_before(pending, items, items.len() as int)
    &&& forall|i: int|
        0 <= i < items.len() ==> routes_to(
            router,
            pending_before(pending, items, i),
            items[i],
            #[trigger] actions[i],
        )
}

/// What to do with the decoded values of one line, one action per value, in
/// order; a value that is not a message is `None`. Answers that arrive
/// complete their waiting requests along the way.
pub fn dispatch<'a, M, N, W>(
    router: &'a Router<M, N>,
    session: &mut Session<W>,
    items: Vec<Option<Message>>,
) -> (actions: Vec<Action<'a, M, N, W>>)
    requires
        router.wf(),
        old(session).wf(),
    ensures
        final(session).wf(),
        final(session).next_id() == old(session).next_id(),
        final(session).pending() == pending_before(old(session).pending(), items@, items@.len() as int),
        actions@.len() == items@.len(),
        forall|i: int|
            0 <= i < items@.len() ==> routes_to(
                router,
                pending_before(old(session).pending(), items@, i),
                items@[i],
                #[trigger] actions@[i],
            ),
        dispatched(router, old(session).pending(), items@, actions@, final(session).pending()),
{
    let ghost items0 = items@;
    let ghost pending0 = session.pending();
    let ghost next0 = session.next_id();
    let mut actions: Vec<Action<'a, M, N, W>> = Vec::new();
    let mut items = items;
    let mut rest: Vec<Option<Message>> = Vec::new();
    while items.len() > 0
        invariant
            items@.len() + rest@.len() == items0.len(),
            forall|j: int| 0 <= j < items@.len() ==> items@[j] == items0[j],
            forall|j: int| 0 <= j < rest@.len() ==> rest@[j] == items0[items0.len() - 1 - j],
        decreases items@.len(),
    {
        let item = items.pop().unwrap();
        rest.push(item);
    }
    while rest.len() > 0
        invariant
            router.wf(),
            session.wf(),
            session.next_id() == next0,
            actions@.len() + rest@.len() == items0.len(),
            forall|j: int| 0 <= j < rest@.len() ==> rest@[j] == items0[items0.len() - 1 - j],
            session.pending() == pending_before(pending0, items0, actions@.len() as int),
            forall|i: int|
                0 <= i < actions@.len() ==> routes_to(
                    router,
                    pending_before(pending0, items0, i),
                    items0[i],
                    #[trigger] actions@[i],
                ),
        decreases rest@.len(),
    {
        let item = rest.pop().unwrap();
        let action = route(router, session, item);
        actions.push(action);
    }
    actions
}

} // verus!
