//! Properties that hold across calls: handle uniqueness and one-shot delivery.
use crate::platform::{
    completion_taken, error_handed_over, request_sent, response_handed_over, JavaPlatform, OutboundRequest, ResponseCallback,
    SendRequestError,
};
use crate::registry::{
    completion_routed, platform_created, CreateError, Delivery, PlatformRegistry, Registration,
};
use vstd::prelude::*;

verus! {

/// Platform handles are issued in strictly increasing order, so no two are
/// equal, and every registered platform sits under an issued handle.
pub proof fn platform_handles_strictly_increase<H, C: ResponseCallback>(
    registry: PlatformRegistry<H, C>,
)
    requires
        registry.well_formed(),
    ensures
        forall|i: int, j: int|
            0 <= i < j < registry.issued_platform_handles().len() ==> #[trigger]
            registry.issued_platform_handles()[i] < #[trigger]
            registry.issued_platform_handles()[j],
        forall|k: i64| #[trigger]
            registry.platforms().contains_key(k) ==> registry.issued_platform_handles().contains(
                k,
            ),
{
    assert forall|i: int, j: int|
        0 <= i < j < registry.issued_platform_handles().len() implies #[trigger]
        registry.issued_platform_handles()[i] < #[trigger]
        registry.issued_platform_handles()[j] by {
        assert(registry.issued_platform_handles()[i] == i);
        assert(registry.issued_platform_handles()[j] == j);
    }
    assert forall|k: i64| #[trigger] registry.platforms().contains_key(k) implies registry.issued_platform_handles().contains(k) by {
        assert(registry.issued_platform_handles()[k as int] == k);
    }
}

/// After a request is issued, the first completion with its response handle,
/// success or error alike, is delivered and leaves the table as it was before
/// the request; a second completion with the same handle delivers nothing.
pub proof fn completion_delivered_once<H, C: ResponseCallback>(
    issued: JavaPlatform<H, C>,
    waiting: JavaPlatform<H, C>,
    completed: JavaPlatform<H, C>,
    repeated: JavaPlatform<H, C>,
    connection_id: i32,
    request: Seq<u8>,
    callback: C,
    sent: Result<OutboundRequest, SendRequestError>,
    first: bool,
    second: bool,
)
    requires
        request_sent(issued, waiting, connection_id, request, callback, sent),
        sent is Ok,
        completion_taken(waiting, completed, sent->Ok_0.response_handle, first),
        completion_taken(completed, repeated, sent->Ok_0.response_handle, second),
    ensures
        first,
        waiting.pending()[sent->Ok_0.response_handle] == callback,
        completed.pending() == issued.pending(),
        !second,
        repeated.pending() == issued.pending(),
{
    assert(completed.pending() =~= issued.pending());
    assert(repeated.pending() =~= completed.pending());
}

/// A success delivered for an issued request reaches the very callback that
/// the request registered: it receives the payload through `on_response`, once,
/// and nothing through `on_error`.
pub proof fn success_reaches_issuing_callback<H, C: ResponseCallback>(
    issued: JavaPlatform<H, C>,
    waiting: JavaPlatform<H, C>,
    completed: JavaPlatform<H, C>,
    connection_id: i32,
    request: Seq<u8>,
    callback: C,
    sent: Result<OutboundRequest, SendRequestError>,
    response: Seq<u8>,
    delivered: bool,
)
    requires
        request_sent(issued, waiting, connection_id, request, callback, sent),
        sent is Ok,
        completion_taken(waiting, completed, sent->Ok_0.response_handle, delivered),
        response_handed_over(waiting, completed, sent->Ok_0.response_handle, response, delivered),
    ensures
        delivered,
        completed.completed()[sent->Ok_0.response_handle].responses() == callback.responses().push(
            response,
        ),
        completed.completed()[sent->Ok_0.response_handle].errors() == callback.errors(),
        !completed.pending().contains_key(sent->Ok_0.response_handle),
{
}

/// An error delivered for an issued request reaches the very callback that the
/// request registered: it receives the code through `on_error`, once, and
/// nothing through `on_response`.
pub proof fn error_reaches_issuing_callback<H, C: ResponseCallback>(
    issued: JavaPlatform<H, C>,
    waiting: JavaPlatform<H, C>,
    completed: JavaPlatform<H, C>,
    connection_id: i32,
    request: Seq<u8>,
    callback: C,
    sent: Result<OutboundRequest, SendRequestError>,
    error_code: i32,
    delivered: bool,
)
    requires
        request_sent(issued, waiting, connection_id, request, callback, sent),
        sent is Ok,
        completion_taken(waiting, completed, sent->Ok_0.response_handle, delivered),
        error_handed_over(waiting, completed, sent->Ok_0.response_handle, error_code, delivered),
    ensures
        delivered,
        completed.completed()[sent->Ok_0.response_handle].errors() == callback.errors().push(
            error_code,
        ),
        completed.completed()[sent->Ok_0.response_handle].responses() == callback.responses(),
        !completed.pending().contains_key(sent->Ok_0.response_handle),
{
}

/// Logging is asked to start only when handle 0 is registered, and of two
/// creations one after the other the second never asks for it.
pub proof fn logging_starts_once<H, C: ResponseCallback>(
    first: PlatformRegistry<H, C>,
    second: PlatformRegistry<H, C>,
    third: PlatformRegistry<H, C>,
    first_host: H,
    second_host: H,
    first_result: Result<Registration, CreateError>,
    second_result: Result<Registration, CreateError>,
)
    requires
        first.well_formed(),
        platform_created(first, second, first_host, first_result),
        platform_created(second, third, second_host, second_result),
    ensures
        first_result is Ok ==> (first_result->Ok_0.start_logging <==> (
        first_result->Ok_0.platform_handle == 0 && !first.logging_started())),
        first_result is Ok && first_result->Ok_0.platform_handle != 0
            ==> !first_result->Ok_0.start_logging,
        first_result is Ok && second_result is Ok ==> !second_result->Ok_0.start_logging,
{
}

/// A completion for a registered platform whose response handle has nothing
/// waiting is dropped: no callback runs and the table stays as it was.
pub proof fn unmatched_response_dropped<H, C: ResponseCallback>(
    before: PlatformRegistry<H, C>,
    after: PlatformRegistry<H, C>,
    platform_handle: i64,
    response_handle: i64,
    r: Delivery,
)
    requires
        completion_routed(before, after, platform_handle, response_handle, r),
        before.platforms().contains_key(platform_handle),
        !before.platforms()[platform_handle].pending().contains_key(response_handle),
    ensures
        r == Delivery::UnmatchedResponse,
        after.platforms()[platform_handle].pending() == before.platforms()[platform_handle].pending(),
        after.platforms().dom() == before.platforms().dom(),
{
    let p = before.platforms()[platform_handle];
    assert(after.platforms()[platform_handle].pending() =~= p.pending());
    assert(after.platforms().dom() =~= before.platforms().dom());
}

/// Requests issued one after another on one instance, in whatever order the
/// callers reached it, take consecutive response handles, pairwise distinct;
/// each callback is stored under its own handle, and no entry that was pending
/// before is lost or replaced.
pub proof fn requests_take_distinct_slots<H, C: ResponseCallback>(
    states: Seq<JavaPlatform<H, C>>,
    connection_ids: Seq<i32>,
    requests: Seq<Seq<u8>>,
    callbacks: Seq<C>,
    results: Seq<Result<OutboundRequest, SendRequestError>>,
)
    requires
        states.len() == results.len() + 1,
        connection_ids.len() == results.len(),
        requests.len() == results.len(),
        callbacks.len() == results.len(),
        forall|i: int|
            0 <= i < results.len() ==> #[trigger] request_sent(
                states[i],
                states[i + 1],
                connection_ids[i],
                requests[i],
                callbacks[i],
                results[i],
            ),
        forall|i: int| 0 <= i < results.len() ==> #[trigger] results[i] is Ok,
    ensures
        forall|i: int|
            0 <= i < results.len() ==> #[trigger] results[i]->Ok_0.response_handle
                == states[0].next_response_handle() + i,
        forall|i: int, j: int|
            0 <= i < j < results.len() ==> #[trigger] results[i]->Ok_0.response_handle
                != #[trigger] results[j]->Ok_0.response_handle,
        forall|i: int|
            0 <= i < results.len() ==> {
                let h = #[trigger] results[i]->Ok_0.response_handle;
                &&& states.last().pending().contains_key(h)
                &&& states.last().pending()[h] == callbacks[i]
            },
        forall|k: i64| #[trigger]
            states[0].pending().contains_key(k) ==> {
                &&& states.last().pending().contains_key(k)
                &&& states.last().pending()[k] == states[0].pending()[k]
            },
{
    lemma_requests_prefix(states, connection_ids, requests, callbacks, results, results.len() as int);
}

proof fn lemma_requests_prefix<H, C: ResponseCallback>(
    states: Seq<JavaPlatform<H, C>>,
    connection_ids: Seq<i32>,
    requests: Seq<Seq<u8>>,
    callbacks: Seq<C>,
    results: Seq<Result<OutboundRequest, SendRequestError>>,
    m: int,
)
    requires
        0 <= m <= results.len(),
        states.len() == results.len() + 1,
        connection_ids.len() == results.len(),
        requests.len() == results.len(),
        callbacks.len() == results.len(),
        forall|i: int|
            0 <= i < results.len() ==> #[trigger] request_sent(
                states[i],
                states[i + 1],
                connection_ids[i],
                requests[i],
                callbacks[i],
                results[i],
            ),
        forall|i: int| 0 <= i < results.len() ==> #[trigger] results[i] is Ok,
    ensures
        states[m].next_response_handle() == states[0].next_response_handle() + m,
        forall|i: int|
            0 <= i < m ==> #[trigger] results[i]->Ok_0.response_handle
                == states[0].next_response_handle() + i,
        forall|i: int|
            0 <= i < m ==> {
                let h = #[trigger] results[i]->Ok_0.response_handle;
                &&& states[m].pending().contains_key(h)
                &&& states[m].pending()[h] == callbacks[i]
            },
        forall|k: i64| #[trigger]
            states[0].pending().contains_key(k) ==> {
                &&& states[m].pending().contains_key(k)
                &&& states[m].pending()[k] == states[0].pending()[k]
            },
    decreases m,
{
    if m > 0 {
        lemma_requests_prefix(states, connection_ids, requests, callbacks, results, m - 1);
        let i = m - 1;
        assert(request_sent(
            states[i],
            states[i + 1],
            connection_ids[i],
            requests[i],
            callbacks[i],
            results[i],
        ));
        assert(results[i] is Ok);
        let h = results[i]->Ok_0.response_handle;
        assert forall|k: i64| #[trigger]
            states[0].pending().contains_key(k) implies {
                &&& states[m].pending().contains_key(k)
                &&& states[m].pending()[k] == states[0].pending()[k]
            } by {
            assert(states[i].pending().contains_key(k));
            assert(k != h);
        }
        assert forall|j: int| 0 <= j < m implies {
                let hj = #[trigger] results[j]->Ok_0.response_handle;
                &&& states[m].pending().contains_key(hj)
                &&& states[m].pending()[hj] == callbacks[j]
            } by {
            if j < i {
                assert(results[j]->Ok_0.response_handle == states[0].next_response_handle() + j);
            }
        }
    }
}

} // verus!
