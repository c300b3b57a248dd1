//! Properties of the protocol that span several steps of the run loop.
use vstd::prelude::*;

use crate::codes::ErrorCode;
use crate::engine::{
    dispatched, registered, pending_after_answer, planned, LinePlan, framed, outbound_step, read_outcome, write_outcome, ReadStep, pending_after, pending_before, routes_to, waiter_for, Action, ChannelMessage,
    Router, Session,
};
use crate::errors::{ChannelError, RuntimeError, SerializationError, TransportError};
use crate::types::Version;
use serde_json::Error as JsonError;
use std::io::Error as IoError;
use crate::protocol::is_error_response;
use crate::json::ParsedLine;
use crate::types::{Id, Message, Notification, Request, Response};

verus! {

/// An answer whose identifier is that of a request just issued is handed to
/// the receiver that the request registered, and to no other; that receiver
/// is then no longer waiting, and all others still are. A second answer with
/// the same identifier reaches nobody.
pub proof fn lemma_answer_reaches_its_waiter<'a, M, N, W>(
    router: &Router<M, N>,
    pending: Map<i64, W>,
    next_id: i64,
    waiter: W,
    answer: Response,
    first: Action<'a, M, N, W>,
    second: Action<'a, M, N, W>,
)
    requires
        forall|k: i64| #[trigger] pending.contains_key(k) ==> k < next_id,
        answer.spec_id() == Id::Number(next_id),
        routes_to(router, pending.insert(next_id, waiter), Some(Message::Response(answer)), first),
        routes_to(
            router,
            pending_after(pending.insert(next_id, waiter), Some(Message::Response(answer))),
            Some(Message::Response(answer)),
            second,
        ),
    ensures
        first matches Action::Deliver(w, r) && w == waiter && r == answer,
        pending_after(pending.insert(next_id, waiter), Some(Message::Response(answer))) == pending,
        second is Ignore,
{
    let after = pending_after(pending.insert(next_id, waiter), Some(Message::Response(answer)));
    assert(!pending.contains_key(next_id));
    assert(after =~= pending);
    assert(waiter_for(after, answer.spec_id()) is None);
}

/// A notification is never answered, and neither is an answer.
pub proof fn lemma_no_reply_to_notifications_or_answers<'a, M, N, W>(
    router: &Router<M, N>,
    pending: Map<i64, W>,
    item: Message,
    action: Action<'a, M, N, W>,
)
    requires
        item is Notification || item is Response,
        routes_to(router, pending, Some(item), action),
    ensures
        !(action is Reply),
{
}

/// A request is never left unanswered: it goes to the handler registered for
/// its method, or it is answered that the method does not exist, under the
/// request's own identifier.
pub proof fn lemma_every_request_is_handled_or_answered<'a, M, N, W>(
    router: &Router<M, N>,
    pending: Map<i64, W>,
    request: Request,
    action: Action<'a, M, N, W>,
)
    requires
        routes_to(router, pending, Some(Message::Request(request)), action),
    ensures
        router.methods().contains_key(request.method@) ==> (action matches Action::CallMethod(
            h,
            r,
        ) && *h == router.methods()[request.method@] && r == request),
        !router.methods().contains_key(request.method@) ==> (action matches Action::Reply(r)
            && is_error_response(r, ErrorCode::MethodNotFound, "Method not found"@, request.id)),
{
}

/// A value that is not a message is answered with an invalid request that
/// names no request.
pub proof fn lemma_invalid_values_are_answered<'a, M, N, W>(
    router: &Router<M, N>,
    pending: Map<i64, W>,
    action: Action<'a, M, N, W>,
)
    requires
        routes_to(router, pending, None, action),
    ensures
        action matches Action::Reply(r) && is_error_response(
            r,
            ErrorCode::InvalidRequest,
            "Invalid Request"@,
            Id::Null,
        ),
{
}

/// A notification goes to the handler registered for its method, if any.
pub proof fn lemma_notification_goes_to_its_handler<'a, M, N, W>(
    router: &Router<M, N>,
    pending: Map<i64, W>,
    notification: Notification,
    action: Action<'a, M, N, W>,
)
    requires
        routes_to(router, pending, Some(Message::Notification(notification)), action),
    ensures
        router.notifications().contains_key(notification.method@) ==> (action matches Action::CallNotification(
            h,
            n,
        ) && *h == router.notifications()[notification.method@] && n == notification),
        !router.notifications().contains_key(notification.method@) ==> action is Ignore,
{
}

/// Handling what the peer sends never makes anyone wait for an answer: the
/// receivers still waiting after any number of values are among those that
/// waited before.
pub proof fn lemma_inbound_never_adds_waiters<W>(
    pending: Map<i64, W>,
    items: Seq<Option<Message>>,
    i: int,
)
    requires
        0 <= i <= items.len(),
    ensures
        pending_before(pending, items, i).submap_of(pending),
    decreases i,
{
    if i > 0 {
        lemma_inbound_never_adds_waiters(pending, items, i - 1);
        let prev = pending_before(pending, items, i - 1);
        let cur = pending_before(pending, items, i);
        assert(cur.submap_of(prev));
        assert forall|k: i64| #[trigger] cur.contains_key(k) implies pending.contains_key(k)
            && cur[k] == pending[k] by {
            assert(prev.contains_key(k));
        }
    }
}

/// The number of requests among the first `i` messages that the run loop
/// took from its channel.
pub open spec fn requests_before<W>(taken: Seq<Option<ChannelMessage<W>>>, i: int) -> int
    decreases i,
{
    if i <= 0 {
        0
    } else {
        requests_before(taken, i - 1) + if taken[i - 1] matches Some(
            ChannelMessage::Request { .. },
        ) {
            1int
        } else {
            0int
        }
    }
}

proof fn lemma_requests_before_grows<W>(taken: Seq<Option<ChannelMessage<W>>>, i: int, j: int)
    requires
        0 <= i <= j,
    ensures
        requests_before(taken, i) <= requests_before(taken, j),
    decreases j - i,
{
    if i < j {
        lemma_requests_before_grows(taken, i, j - 1);
    }
}

proof fn lemma_next_id_counts_requests<W>(
    sessions: Seq<Session<W>>,
    taken: Seq<Option<ChannelMessage<W>>>,
    written: Seq<Result<Message, RuntimeError>>,
    i: int,
)
    requires
        sessions.len() == taken.len() + 1,
        written.len() == taken.len(),
        sessions[0].next_id() == 1,
        forall|k: int|
            0 <= k < taken.len() ==> #[trigger] outbound_step(
                sessions[k],
                taken[k],
                sessions[k + 1],
                written[k],
            ),
        0 <= i <= taken.len(),
    ensures
        sessions[i].next_id() == 1 + requests_before(taken, i),
    decreases i,
{
    if i > 0 {
        lemma_next_id_counts_requests(sessions, taken, written, i - 1);
        let k = i - 1;
        assert(outbound_step(sessions[k], taken[k], sessions[k + 1], written[k]));
        assert(k + 1 == i);
    }
}

/// Starting from a fresh session, the run loop writes the requests it takes
/// from its channel with the identifiers 1, 2, 3, ... in the order it takes
/// them, whatever answers and notifications come in between; so no two
/// written requests share an identifier.
pub proof fn lemma_request_ids_count_up<W>(
    sessions: Seq<Session<W>>,
    taken: Seq<Option<ChannelMessage<W>>>,
    written: Seq<Result<Message, RuntimeError>>,
)
    requires
        sessions.len() == taken.len() + 1,
        written.len() == taken.len(),
        sessions[0].next_id() == 1,
        forall|k: int|
            0 <= k < taken.len() ==> #[trigger] outbound_step(
                sessions[k],
                taken[k],
                sessions[k + 1],
                written[k],
            ),
    ensures
        forall|i: int|
            0 <= i < taken.len() && (taken[i] matches Some(ChannelMessage::Request { .. })) ==> (
            #[trigger] written[i] matches Ok(Message::Request(r)) && r.id == Id::Number(
                sessions[i].next_id(),
            ) && sessions[i].next_id() == 1 + requests_before(taken, i)),
        forall|i: int, j: int|
            0 <= i < j < taken.len() && (taken[i] matches Some(ChannelMessage::Request { .. })) && (
            taken[j] matches Some(ChannelMessage::Request { .. })) ==> #[trigger] sessions[i].next_id()
                < #[trigger] sessions[j].next_id(),
{
    assert forall|i: int|
        0 <= i < taken.len() && (taken[i] matches Some(ChannelMessage::Request { .. })) implies (
        #[trigger] written[i] matches Ok(Message::Request(r)) && r.id == Id::Number(
            sessions[i].next_id(),
        ) && sessions[i].next_id() == 1 + requests_before(taken, i)) by {
        lemma_next_id_counts_requests(sessions, taken, written, i);
        assert(outbound_step(sessions[i], taken[i], sessions[i + 1], written[i]));
    }
    assert forall|i: int, j: int|
        0 <= i < j < taken.len() && (taken[i] matches Some(ChannelMessage::Request { .. })) && (
        taken[j] matches Some(ChannelMessage::Request { .. })) implies #[trigger] sessions[i].next_id()
            < #[trigger] sessions[j].next_id() by {
        lemma_next_id_counts_requests(sessions, taken, written, i);
        lemma_next_id_counts_requests(sessions, taken, written, j);
        lemma_requests_before_grows(taken, i + 1, j);
    }
}

/// The message that the run loop writes for a message taken from its
/// channel, when the next request identifier is `id`: a request gets that
/// identifier, anything else is written as it was handed in.
pub open spec fn message_for<W>(taken: ChannelMessage<W>, id: i64) -> Message {
    match taken {
        ChannelMessage::Request { method, params, waiter: _ } => Message::Request(
            Request { jsonrpc: Some(Version::V2), method, params, id: Id::Number(id) },
        ),
        ChannelMessage::Response(response) => Message::Response(response),
        ChannelMessage::Notification(notification) => Message::Notification(notification),
    }
}

/// The run loop writes each message it takes from its channel as it was
/// handed in (a request with the next identifier added), one write per
/// message and in the order it takes them; it stops only when the channel
/// has no sender left.
pub proof fn lemma_written_as_taken<W>(
    sessions: Seq<Session<W>>,
    taken: Seq<Option<ChannelMessage<W>>>,
    written: Seq<Result<Message, RuntimeError>>,
)
    requires
        sessions.len() == taken.len() + 1,
        written.len() == taken.len(),
        forall|k: int|
            0 <= k < taken.len() ==> #[trigger] outbound_step(
                sessions[k],
                taken[k],
                sessions[k + 1],
                written[k],
            ),
    ensures
        forall|i: int|
            0 <= i < taken.len() && (taken[i] is Some) ==> #[trigger] written[i]
                == Ok::<Message, RuntimeError>(
                message_for(taken[i].unwrap(), sessions[i].next_id()),
            ),
        forall|i: int|
            0 <= i < taken.len() && (taken[i] is None) ==> #[trigger] written[i]
                == Err::<Message, RuntimeError>(
                RuntimeError::Channel(ChannelError::MessageChannelClosed),
            ),
{
    assert forall|i: int| 0 <= i < taken.len() && (taken[i] is Some) implies #[trigger] written[i]
        == Ok::<Message, RuntimeError>(message_for(taken[i].unwrap(), sessions[i].next_id())) by {
        assert(outbound_step(sessions[i], taken[i], sessions[i + 1], written[i]));
    }
    assert forall|i: int| 0 <= i < taken.len() && (taken[i] is None) implies #[trigger] written[i]
        == Err::<Message, RuntimeError>(RuntimeError::Channel(ChannelError::MessageChannelClosed)) by {
        assert(outbound_step(sessions[i], taken[i], sessions[i + 1], written[i]));
    }
}

/// The run loop ends normally only at the end of its input. Every other way
/// it stops is a typed failure of the step that failed: a read failure, a
/// write failure, a message that could not be encoded, or a channel with no
/// sender left; handling what was read never stops it.
pub proof fn lemma_run_stops_typed<W>(
    read: Result<Option<String>, IoError>,
    step: ReadStep,
    written: Result<(), IoError>,
    after_write: Result<(), RuntimeError>,
    encoded: Result<Vec<u8>, JsonError>,
    bytes: Result<Vec<u8>, RuntimeError>,
    before: Session<W>,
    next: Option<ChannelMessage<W>>,
    after: Session<W>,
    message: Result<Message, RuntimeError>,
)
    requires
        read_outcome(read, step),
        write_outcome(written, after_write),
        framed(encoded, bytes),
        outbound_step(before, next, after, message),
    ensures
        step == ReadStep::Stop(Ok(())) <==> read matches Ok(None),
        step matches ReadStep::Stop(Err(e)) ==> (e matches RuntimeError::Transport(
            TransportError::Read(_),
        ) && read is Err),
        after_write matches Err(e) ==> (e matches RuntimeError::Transport(TransportError::Write(_))
            && written is Err),
        bytes matches Err(e) ==> (e matches RuntimeError::Serialization(
            SerializationError::SerializeMessage(_),
        ) && encoded is Err),
        message matches Err(e) ==> (e == RuntimeError::Channel(ChannelError::MessageChannelClosed)
            && next is None),
{
}

/// An answer to any request still waiting (not only the latest one) is
/// handed to that request's receiver, which then stops waiting, while every
/// other receiver keeps waiting.
pub proof fn lemma_any_waiting_answer_is_delivered<'a, M, N, W>(
    router: &Router<M, N>,
    pending: Map<i64, W>,
    n: i64,
    answer: Response,
    action: Action<'a, M, N, W>,
)
    requires
        pending.contains_key(n),
        answer.spec_id() == Id::Number(n),
        routes_to(router, pending, Some(Message::Response(answer)), action),
    ensures
        action matches Action::Deliver(w, r) && w == pending[n] && r == answer,
        pending_after(pending, Some(Message::Response(answer))) == pending.remove(n),
        !pending_after(pending, Some(Message::Response(answer))).contains_key(n),
        forall|k: i64|
            k != n && pending.contains_key(k) ==> #[trigger] pending_after(
                pending,
                Some(Message::Response(answer)),
            ).contains_key(k) && pending_after(pending, Some(Message::Response(answer)))[k]
                == pending[k],
{
}

/// Looking up the receiver for an identifier finds the one registered under
/// that number, and taking it leaves all the others; an identifier under
/// which nothing waits finds nothing and changes nothing.
pub proof fn lemma_waiter_lookup<W>(pending: Map<i64, W>, id: Id)
    ensures
        forall|n: i64|
            id == Id::Number(n) && #[trigger] pending.contains_key(n) ==> (waiter_for(pending, id)
                == Some(pending[n]) && pending_after_answer(pending, id) == pending.remove(n)),
        (forall|n: i64| !(id == Id::Number(n) && #[trigger] pending.contains_key(n))) ==> (
        waiter_for(pending, id) is None && pending_after_answer(pending, id) == pending),
{
    if let Id::Number(n) = id {
        if !pending.contains_key(n) {
            assert(pending.remove(n) =~= pending);
        }
    }
}

/// An answer that no request waits for reaches nobody and changes nothing.
pub proof fn lemma_unawaited_answer_is_ignored<'a, M, N, W>(
    router: &Router<M, N>,
    pending: Map<i64, W>,
    answer: Response,
    action: Action<'a, M, N, W>,
)
    requires
        forall|n: i64| !(answer.spec_id() == Id::Number(n) && #[trigger] pending.contains_key(n)),
        routes_to(router, pending, Some(Message::Response(answer)), action),
    ensures
        action is Ignore,
        pending_after(pending, Some(Message::Response(answer))) == pending,
{
    lemma_waiter_lookup(pending, answer.spec_id());
}

/// Sending a request keeps every receiver already waiting, with its own
/// request; the new request gets the next identifier, under which nothing
/// waited before, and its receiver is the only one added.
pub proof fn lemma_request_keeps_waiters<W>(
    before: Session<W>,
    method: String,
    params: Option<crate::types::Params>,
    waiter: W,
    after: Session<W>,
    written: Result<Message, RuntimeError>,
)
    requires
        before.wf(),
        outbound_step(before, Some(ChannelMessage::Request { method, params, waiter }), after, written),
    ensures
        forall|k: i64|
            #[trigger] before.pending().contains_key(k) ==> after.pending().contains_key(k)
                && after.pending()[k] == before.pending()[k],
        !before.pending().contains_key(before.next_id()),
        after.pending().contains_key(before.next_id()),
        after.pending()[before.next_id()] == waiter,
        forall|k: i64|
            #[trigger] after.pending().contains_key(k) ==> k == before.next_id()
                || before.pending().contains_key(k),
        after.next_id() == before.next_id() + 1,
        written matches Ok(Message::Request(r)) && r.id == Id::Number(before.next_id()) && r.method
            == method && r.params == params && r.jsonrpc == Some(Version::V2),
{
    assert(!before.pending().contains_key(before.next_id()));
}

/// Answers, notifications and the closing of the channel leave the waiting
/// requests and the next identifier as they were.
pub proof fn lemma_other_steps_keep_session<W>(
    before: Session<W>,
    next: Option<ChannelMessage<W>>,
    after: Session<W>,
    written: Result<Message, RuntimeError>,
)
    requires
        !(next matches Some(ChannelMessage::Request { .. })),
        outbound_step(before, next, after, written),
    ensures
        after.pending() == before.pending(),
        after.next_id() == before.next_id(),
{
}

/// Every message that could be encoded is written as its encoding followed
/// by exactly one line feed, whatever its length; one that could not be
/// encoded stops the run loop with the encoding failure.
pub proof fn lemma_frame_ends_each_message_with_one_line_feed(
    encoded: Result<Vec<u8>, JsonError>,
    r: Result<Vec<u8>, RuntimeError>,
)
    requires
        framed(encoded, r),
    ensures
        encoded is Ok ==> (r matches Ok(out) && out@.len() == encoded->Ok_0@.len() + 1
            && out@[encoded->Ok_0@.len() as int] == 10u8 && out@.take(encoded->Ok_0@.len() as int)
            == encoded->Ok_0@),
        encoded is Err ==> r == Err::<Vec<u8>, RuntimeError>(
            RuntimeError::Serialization(SerializationError::SerializeMessage(encoded->Err_0)),
        ),
{
    if let Ok(bytes) = encoded {
        if let Ok(out) = r {
            assert(out@.take(bytes@.len() as int) =~= bytes@);
        }
    }
}

/// Every item of a non-empty batch is handed on for decoding, all of them
/// and in their order; only an empty batch is answered with an invalid
/// request, only text that is not JSON with a parse error, and a single
/// value is decoded on its own.
pub proof fn lemma_every_batch_item_is_handled(parsed: ParsedLine, plan: LinePlan)
    requires
        planned(parsed, plan),
    ensures
        parsed is Batch && parsed->Batch_0@.len() >= 1 ==> plan == LinePlan::Decode(
            parsed->Batch_0,
        ),
        parsed is Batch && parsed->Batch_0@.len() == 0 ==> (plan matches LinePlan::Reply(r)
            && is_error_response(r, ErrorCode::InvalidRequest, "Invalid Request"@, Id::Null)),
        parsed is Malformed ==> (plan matches LinePlan::Reply(r) && is_error_response(
            r,
            ErrorCode::ParseError,
            "Parse error"@,
            Id::Null,
        )),
        parsed is Single ==> (plan matches LinePlan::Decode(values) && values@.len() == 1
            && values@[0] == parsed->Single_0),
        plan is Reply <==> (parsed is Malformed || (parsed is Batch && parsed->Batch_0@.len()
            == 0)),
{
}

/// The values of a line are handled one by one in their order, one action
/// each: a request nobody handles is answered under its own identifier in
/// its own place, a value that is not a message is answered in its place,
/// and an answer to a request that waits at that point is delivered in its
/// place. Handling the values never adds a waiting request.
pub proof fn lemma_values_handled_in_order<'a, M, N, W>(
    router: &Router<M, N>,
    pending: Map<i64, W>,
    items: Seq<Option<Message>>,
    actions: Seq<Action<'a, M, N, W>>,
    pending_end: Map<i64, W>,
)
    requires
        dispatched(router, pending, items, actions, pending_end),
    ensures
        actions.len() == items.len(),
        pending_end.submap_of(pending),
        forall|i: int|
            0 <= i < items.len() && items[i] is None ==> (#[trigger] actions[i] matches Action::Reply(r)
                && is_error_response(r, ErrorCode::InvalidRequest, "Invalid Request"@, Id::Null)),
        forall|i: int|
            0 <= i < items.len() && items[i] is Some && items[i]->0 is Request
                && !router.methods().contains_key(items[i]->0->Request_0.method@) ==> (
            #[trigger] actions[i] matches Action::Reply(r) && is_error_response(
                r,
                ErrorCode::MethodNotFound,
                "Method not found"@,
                items[i]->0->Request_0.id,
            )),
        forall|i: int|
            0 <= i < items.len() && items[i] is Some && items[i]->0 is Request
                && router.methods().contains_key(items[i]->0->Request_0.method@) ==> (
            #[trigger] actions[i] matches Action::CallMethod(h, r) && *h == router.methods()[items[i]->0->Request_0.method@]
                && r == items[i]->0->Request_0),
        forall|i: int, n: i64|
            0 <= i < items.len() && items[i] is Some && items[i]->0 is Response
                && items[i]->0->Response_0.spec_id() == Id::Number(n)
                && #[trigger] pending_before(pending, items, i).contains_key(n) ==> (
            #[trigger] actions[i] matches Action::Deliver(w, r) && w == pending_before(
                pending,
                items,
                i,
            )[n] && r == items[i]->0->Response_0),
{
    lemma_inbound_never_adds_waiters(pending, items, items.len() as int);
}

/// Registering a handler for a name makes it the handler of that name,
/// replacing any earlier one, and leaves every other name's handler as it
/// was; no name is forgotten.
pub proof fn lemma_registration_replaces_only_its_name<H>(
    handlers: Map<Seq<char>, H>,
    name: Seq<char>,
    handler: H,
)
    ensures
        registered(handlers, name, handler).contains_key(name),
        registered(handlers, name, handler)[name] == handler,
        forall|k: Seq<char>|
            k != name && #[trigger] handlers.contains_key(k) ==> registered(
                handlers,
                name,
                handler,
            ).contains_key(k) && registered(handlers, name, handler)[k] == handlers[k],
        forall|k: Seq<char>|
            #[trigger] registered(handlers, name, handler).contains_key(k) ==> k == name
                || handlers.contains_key(k),
{
}

} // verus!
