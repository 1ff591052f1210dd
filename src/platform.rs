//! One platform instance: a host binding, a response-handle counter and the
//! table of pending completion callbacks.
use crate::bytes::copy_bytes;
use std::collections::HashMap;
use vstd::prelude::*;

verus! {

broadcast use vstd::std_specs::hash::group_hash_axioms;

/// Reports a response from the remote device.
///
/// Exactly one of the two methods is invoked for a request, once, possibly on
/// another thread than the one that issued the request. The two spec views
/// record what the callback has been handed so far.
pub trait ResponseCallback {
    /// The response payloads handed to this callback, in order. An
    /// implementation whose record this default does not describe overrides it.
    closed spec fn responses(&self) -> Seq<Seq<u8>> {
        Seq::empty()
    }

    /// The error codes handed to this callback, in order. An implementation
    /// whose record this default does not describe overrides it.
    closed spec fn errors(&self) -> Seq<i32> {
        Seq::empty()
    }

    /// Invoked upon a successful response, with its payload.
    fn on_response(&mut self, response: Vec<u8>)
        ensures
            final(self).responses() == old(self).responses().push(response@),
            final(self).errors() == old(self).errors(),
    ;

    /// Invoked upon failure, with the error code that the host reported.
    fn on_error(&mut self, error_code: i32)
        ensures
            final(self).errors() == old(self).errors().push(error_code),
            final(self).responses() == old(self).responses(),
    ;
}

/// Why a request was not issued.
#[derive(Debug, Clone, Copy, PartialEq, Eq, Structural)]
pub enum SendRequestError {
    /// Every response handle of the instance has been handed out.
    ResponseHandlesExhausted,
    /// No platform is registered under the handle.
    UnknownPlatform { platform_handle: i64 },
}

/// The call that the host object has to receive for an issued request, with
/// its four arguments in the order in which the host method takes them.
#[derive(Debug, PartialEq, Eq)]
pub struct OutboundRequest {
    pub connection_id: i32,
    pub payload: Vec<u8>,
    pub response_handle: i64,
    pub platform_handle: i64,
}

/// Platform functionality: issuing a request whose completion arrives later.
pub trait Platform<C: ResponseCallback> {
    /// Holds when the instance's bookkeeping is consistent.
    spec fn well_formed(&self) -> bool;

    /// Registers `callback` for a new request to the connection and returns the
    /// call that the host has to receive.
    fn send_request(&mut self, connection_id: i32, request: &[u8], callback: C) -> (r: Result<
        OutboundRequest,
        SendRequestError,
    >)
        requires
            old(self).well_formed(),
        ensures
            final(self).well_formed(),
    ;
}

/// A platform instance bound to a host object of type `H`, with pending
/// callbacks of type `C`.
pub struct JavaPlatform<H, C> {
    platform_handle: i64,
    host: H,
    map_futures: HashMap<i64, C>,
    atomic_handle: i64,
    completed: Ghost<Map<i64, C>>,
}

/// `after` is `before` with the callback table changed only.
pub open spec fn same_binding<H, C: ResponseCallback>(
    before: JavaPlatform<H, C>,
    after: JavaPlatform<H, C>,
) -> bool {
    &&& after.handle() == before.handle()
    &&& after.host_binding() == before.host_binding()
    &&& after.next_response_handle() == before.next_response_handle()
}

/// What issuing a request does: on success a fresh response handle is taken,
/// the callback is stored under it, and the host call carries the arguments.
pub open spec fn request_sent<H, C: ResponseCallback>(
    before: JavaPlatform<H, C>,
    after: JavaPlatform<H, C>,
    connection_id: i32,
    request: Seq<u8>,
    callback: C,
    r: Result<OutboundRequest, SendRequestError>,
) -> bool {
    &&& (r is Err) == (before.next_response_handle() == i64::MAX)
    &&& match r {
        Ok(out) => {
            &&& out.connection_id == connection_id
            &&& out.payload@ == request
            &&& out.response_handle == before.next_response_handle()
            &&& out.platform_handle == before.handle()
            &&& !before.pending().contains_key(out.response_handle)
            &&& after.pending() == before.pending().insert(out.response_handle, callback)
            &&& after.next_response_handle() == before.next_response_handle() + 1
            &&& after.handle() == before.handle()
            &&& after.host_binding() == before.host_binding()
            &&& after.completed() == before.completed()
        },
        Err(e) => {
            &&& e == SendRequestError::ResponseHandlesExhausted
            &&& after == before
        },
    }
}

/// What delivering a completion does: the callback stored under the response
/// handle, if any, is taken out of the table and invoked; `delivered` tells
/// whether there was one.
pub open spec fn completion_taken<H, C: ResponseCallback>(
    before: JavaPlatform<H, C>,
    after: JavaPlatform<H, C>,
    response_handle: i64,
    delivered: bool,
) -> bool {
    &&& delivered == before.pending().contains_key(response_handle)
    &&& after.pending() == before.pending().remove(response_handle)
    &&& same_binding(before, after)
    &&& after.completed() == if delivered {
        before.completed().insert(response_handle, after.completed()[response_handle])
    } else {
        before.completed()
    }
}

/// On delivery, the callback that waited under the response handle received
/// the payload through `on_response` and nothing through `on_error`.
pub open spec fn response_handed_over<H, C: ResponseCallback>(
    before: JavaPlatform<H, C>,
    after: JavaPlatform<H, C>,
    response_handle: i64,
    response: Seq<u8>,
    delivered: bool,
) -> bool {
    delivered ==> {
        let waiting = before.pending()[response_handle];
        let done = after.completed()[response_handle];
        &&& done.responses() == waiting.responses().push(response)
        &&& done.errors() == waiting.errors()
    }
}

/// On delivery, the callback that waited under the response handle received
/// the error code through `on_error` and nothing through `on_response`.
pub open spec fn error_handed_over<H, C: ResponseCallback>(
    before: JavaPlatform<H, C>,
    after: JavaPlatform<H, C>,
    response_handle: i64,
    error_code: i32,
    delivered: bool,
) -> bool {
    delivered ==> {
        let waiting = before.pending()[response_handle];
        let done = after.completed()[response_handle];
        &&& done.errors() == waiting.errors().push(error_code)
        &&& done.responses() == waiting.responses()
    }
}

impl<H, C: ResponseCallback> JavaPlatform<H, C> {
    /// The handle under which the instance is registered.
    pub closed spec fn handle(&self) -> i64 {
        self.platform_handle
    }

    /// The host object binding that issued requests go to.
    pub closed spec fn host_binding(&self) -> H {
        self.host
    }

    /// The pending callbacks, by response handle.
    pub closed spec fn pending(&self) -> Map<i64, C> {
        self.map_futures@
    }

    /// The callbacks that have been invoked, by response handle, as they were
    /// after the invocation.
    pub closed spec fn completed(&self) -> Map<i64, C> {
        self.completed@
    }

    /// The response handle that the next request will take.
    pub closed spec fn next_response_handle(&self) -> int {
        self.atomic_handle as int
    }

    /// The response handles handed out so far, in the order of issue.
    pub open spec fn issued_response_handles(&self) -> Seq<i64> {
        Seq::new(self.next_response_handle() as nat, |i: int| i as i64)
    }

    /// Creates an instance with an empty table whose first response handle is 0.
    pub fn new(platform_handle: i64, host: H) -> (r: Self)
        ensures
            r.well_formed(),
            r.handle() == platform_handle,
            r.host_binding() == host,
            r.pending() == Map::<i64, C>::empty(),
            r.next_response_handle() == 0,
            r.completed() == Map::<i64, C>::empty(),
    {
        JavaPlatform {
            platform_handle,
            host,
            map_futures: HashMap::new(),
            atomic_handle: 0,
            completed: Ghost(Map::empty()),
        }
    }

    /// The host object binding that issued requests go to.
    pub fn host(&self) -> (r: &H)
        ensures
            *r == self.host_binding(),
    {
        &self.host
    }

    /// The handle under which the instance is registered.
    pub fn platform_handle(&self) -> (r: i64)
        ensures
            r == self.handle(),
    {
        self.platform_handle
    }

    /// Whether a callback waits under the response handle.
    pub fn is_pending(&self, response_handle: i64) -> (r: bool)
        ensures
            r == self.pending().contains_key(response_handle),
    {
        self.map_futures.contains_key(&response_handle)
    }

    /// Delivers a successful response: the callback waiting under the response
    /// handle, if any, leaves the table and receives the payload. Returns
    /// whether one was waiting; if none was, nothing is invoked.
    pub fn on_send_request_success(&mut self, response: &[u8], response_handle: i64) -> (delivered:
        bool)
        requires
            old(self).well_formed(),
        ensures
            final(self).well_formed(),
            completion_taken(*old(self), *final(self), response_handle, delivered),
            response_handed_over(*old(self), *final(self), response_handle, response@, delivered),
    {
        match self.map_futures.remove(&response_handle) {
            Some(callback) => {
                let mut callback = callback;
                callback.on_response(copy_bytes(response));
                self.completed = Ghost(self.completed@.insert(response_handle, callback));
                true
            },
            None => false,
        }
    }

    /// Delivers a failure: the callback waiting under the response handle, if
    /// any, leaves the table and receives the error code. Returns whether one
    /// was waiting; if none was, nothing is invoked.
    pub fn on_send_request_error(&mut self, error_code: i32, response_handle: i64) -> (delivered:
        bool)
        requires
            old(self).well_formed(),
        ensures
            final(self).well_formed(),
            completion_taken(*old(self), *final(self), response_handle, delivered),
            error_handed_over(*old(self), *final(self), response_handle, error_code, delivered),
    {
        match self.map_futures.remove(&response_handle) {
            Some(callback) => {
                let mut callback = callback;
                callback.on_error(error_code);
                self.completed = Ghost(self.completed@.insert(response_handle, callback));
                true
            },
            None => false,
        }
    }
}

impl<H, C: ResponseCallback> Platform<C> for JavaPlatform<H, C> {
    closed spec fn well_formed(&self) -> bool {
        &&& 0 <= self.atomic_handle
        &&& forall|k: i64| #[trigger]
            self.map_futures@.contains_key(k) ==> 0 <= k < self.atomic_handle
    }

    /// Takes the next response handle and stores the callback under it before
    /// the host is called, so that a completion racing with the call still
    /// finds it.
    fn send_request(&mut self, connection_id: i32, request: &[u8], callback: C) -> (r: Result<
        OutboundRequest,
        SendRequestError,
    >)
        ensures
            request_sent(*old(self), *final(self), connection_id, request@, callback, r),
    {
        if self.atomic_handle == i64::MAX {
            return Err(SendRequestError::ResponseHandlesExhausted);
        }
        let response_handle = self.atomic_handle;
        self.atomic_handle = response_handle + 1;
        self.map_futures.insert(response_handle, callback);
        Ok(
            OutboundRequest {
                connection_id,
                payload: copy_bytes(request),
                response_handle,
                platform_handle: self.platform_handle,
            },
        )
    }
}

/// Within one instance, response handles are issued in strictly increasing
/// order, so no two are equal; every pending callback sits under an issued
/// handle, and the handle that the next request takes is free.
pub proof fn response_handles_strictly_increase<H, C: ResponseCallback>(
    platform: JavaPlatform<H, C>,
)
    requires
        platform.well_formed(),
    ensures
        forall|i: int, j: int|
            0 <= i < j < platform.issued_response_handles().len() ==> #[trigger]
            platform.issued_response_handles()[i] < #[trigger]
            platform.issued_response_handles()[j],
        forall|k: i64| #[trigger]
            platform.pending().contains_key(k) ==> platform.issued_response_handles().contains(k),
        !platform.pending().contains_key(platform.next_response_handle() as i64),
        0 <= platform.next_response_handle() <= i64::MAX,
        forall|k: i64| #[trigger]
            platform.pending().contains_key(k) ==> 0 <= k < platform.next_response_handle(),
{
    assert forall|k: i64| #[trigger] platform.pending().contains_key(k) implies platform.issued_response_handles().contains(k) by {
        assert(platform.issued_response_handles()[k as int] == k);
    }
}

/// A callback that keeps everything it is handed.
pub struct ResponseLog {
    responses: Vec<Vec<u8>>,
    errors: Vec<i32>,
}

impl ResponseLog {
    /// A log that has received nothing.
    pub fn new() -> (r: Self)
        ensures
            r.responses() == Seq::<Seq<u8>>::empty(),
            r.errors() == Seq::<i32>::empty(),
    {
        ResponseLog { responses: Vec::new(), errors: Vec::new() }
    }

    /// The number of responses received.
    pub fn response_count(&self) -> (r: usize)
        ensures
            r == self.responses().len(),
    {
        self.responses.len()
    }

    /// The number of errors received.
    pub fn error_count(&self) -> (r: usize)
        ensures
            r == self.errors().len(),
    {
        self.errors.len()
    }
}

impl ResponseCallback for ResponseLog {
    closed spec fn responses(&self) -> Seq<Seq<u8>> {
        self.responses@.map_values(|v: Vec<u8>| v@)
    }

    closed spec fn errors(&self) -> Seq<i32> {
        self.errors@
    }

    fn on_response(&mut self, response: Vec<u8>) {
        let ghost v = response@;
        self.responses.push(response);
        proof {
            assert(self.responses@.map_values(|v: Vec<u8>| v@) =~= old(self).responses@.map_values(
                |v: Vec<u8>| v@,
            ).push(v));
        }
    }

    fn on_error(&mut self, error_code: i32) {
        self.errors.push(error_code);
    }
}

} // verus!
