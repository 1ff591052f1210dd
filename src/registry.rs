//! The process-wide correlation from platform handle to platform instance, and
//! the routing of inbound completions through it.
use crate::platform::{
    completion_taken, error_handed_over, request_sent, response_handed_over, JavaPlatform, OutboundRequest, Platform, ResponseCallback,
    SendRequestError,
};
use std::collections::HashMap;
use vstd::prelude::*;

verus! {

broadcast use vstd::std_specs::hash::group_hash_axioms;

/// Why a platform could not be created.
#[derive(Debug, Clone, Copy, PartialEq, Eq, Structural)]
pub enum CreateError {
    /// Every platform handle has been handed out.
    PlatformHandlesExhausted,
}

/// The outcome of a created platform's registration.
#[derive(Debug, Clone, Copy, PartialEq, Eq, Structural)]
pub struct Registration {
    /// The handle under which the new platform is registered.
    pub platform_handle: i64,
    /// Whether the caller has to start the logging subsystem now: true for the
    /// first registration of handle 0 only.
    pub start_logging: bool,
}

/// What became of an inbound completion.
#[derive(Debug, Clone, Copy, PartialEq, Eq, Structural)]
pub enum Delivery {
    /// The waiting callback was taken out and invoked.
    Delivered,
    /// The platform is known but nothing waits under the response handle; the
    /// completion is dropped and no callback is invoked.
    UnmatchedResponse,
    /// No platform is registered under the handle; the host is to be told by a
    /// thrown error, and no callback is invoked.
    UnknownPlatform,
}

/// The platforms by handle, and the counter that platform handles come from.
pub struct PlatformRegistry<H, C> {
    platforms: HashMap<i64, JavaPlatform<H, C>>,
    handle_rn: i64,
    logging_started: bool,
}

/// `after` is `before` with the entry under `platform_handle` replaced only.
pub open spec fn only_platform_changed<H, C: ResponseCallback>(
    before: PlatformRegistry<H, C>,
    after: PlatformRegistry<H, C>,
    platform_handle: i64,
) -> bool {
    &&& before.platforms().contains_key(platform_handle)
    &&& after.platforms() == before.platforms().insert(
        platform_handle,
        after.platforms()[platform_handle],
    )
    &&& after.next_platform_handle() == before.next_platform_handle()
    &&& after.logging_started() == before.logging_started()
}

/// `after` holds the same platforms, counter and logging state as `before`.
pub open spec fn registry_unchanged<H, C: ResponseCallback>(
    before: PlatformRegistry<H, C>,
    after: PlatformRegistry<H, C>,
) -> bool {
    &&& after.platforms() == before.platforms()
    &&& after.next_platform_handle() == before.next_platform_handle()
    &&& after.logging_started() == before.logging_started()
}

/// What routing a completion does: an unknown platform handle changes nothing;
/// otherwise the platform takes the completion out of its table.
pub open spec fn completion_routed<H, C: ResponseCallback>(
    before: PlatformRegistry<H, C>,
    after: PlatformRegistry<H, C>,
    platform_handle: i64,
    response_handle: i64,
    r: Delivery,
) -> bool {
    if !before.platforms().contains_key(platform_handle) {
        &&& r == Delivery::UnknownPlatform
        &&& registry_unchanged(before, after)
    } else {
        let p = before.platforms()[platform_handle];
        let q = after.platforms()[platform_handle];
        &&& only_platform_changed(before, after, platform_handle)
        &&& completion_taken(p, q, response_handle, r == Delivery::Delivered)
        &&& r != Delivery::UnknownPlatform
    }
}

impl<H, C: ResponseCallback> PlatformRegistry<H, C> {
    /// The registered platforms, by handle.
    pub closed spec fn platforms(&self) -> Map<i64, JavaPlatform<H, C>> {
        self.platforms@
    }

    /// The platform handle that the next creation will take.
    pub closed spec fn next_platform_handle(&self) -> int {
        self.handle_rn as int
    }

    /// Whether the logging subsystem has been asked to start.
    pub closed spec fn logging_started(&self) -> bool {
        self.logging_started
    }

    /// The platform handles handed out so far, in the order of issue.
    pub open spec fn issued_platform_handles(&self) -> Seq<i64> {
        Seq::new(self.next_platform_handle() as nat, |i: int| i as i64)
    }

    /// Every registered platform sits under its own handle, which was issued
    /// before, and is itself consistent.
    pub open spec fn well_formed(&self) -> bool {
        &&& 0 <= self.next_platform_handle() <= i64::MAX
        &&& forall|k: i64| #[trigger]
            self.platforms().contains_key(k) ==> {
                &&& 0 <= k < self.next_platform_handle()
                &&& self.platforms()[k].handle() == k
                &&& self.platforms()[k].well_formed()
            }
    }

    /// An empty registry whose first platform handle is 0.
    pub fn new() -> (r: Self)
        ensures
            r.well_formed(),
            r.platforms() == Map::<i64, JavaPlatform<H, C>>::empty(),
            r.next_platform_handle() == 0,
            !r.logging_started(),
    {
        PlatformRegistry { platforms: HashMap::new(), handle_rn: 0, logging_started: false }
    }

    /// Hands out the next platform handle; `None` once all are spent. No two
    /// calls return the same handle.
    pub fn generate_platform_handle(&mut self) -> (r: Option<i64>)
        requires
            old(self).well_formed(),
        ensures
            final(self).well_formed(),
            (r is None) == (old(self).next_platform_handle() == i64::MAX),
            final(self).platforms() == old(self).platforms(),
            final(self).logging_started() == old(self).logging_started(),
            match r {
                Some(h) => {
                    &&& h == old(self).next_platform_handle()
                    &&& final(self).next_platform_handle() == h + 1
                    &&& final(self).issued_platform_handles()
                        == old(self).issued_platform_handles().push(h)
                },
                None => *final(self) == *old(self),
            },
    {
        if self.handle_rn == i64::MAX {
            return None;
        }
        let h = self.handle_rn;
        self.handle_rn = h + 1;
        proof {
            assert(self.issued_platform_handles() =~= old(self).issued_platform_handles().push(h));
            assert(forall|k: i64| #[trigger]
                self.platforms().contains_key(k) ==> old(self).platforms().contains_key(k));
        }
        Some(h)
    }

    /// Registers a platform under its handle. Returns whether the logging
    /// subsystem has to be started now: on the first registration of handle 0.
    pub fn insert_platform_handle(&mut self, item: JavaPlatform<H, C>) -> (start_logging:
        bool)
        requires
            old(self).well_formed(),
            item.well_formed(),
            0 <= item.handle() < old(self).next_platform_handle(),
        ensures
            final(self).well_formed(),
            final(self).platforms() == old(self).platforms().insert(item.handle(), item),
            final(self).next_platform_handle() == old(self).next_platform_handle(),
            start_logging == (item.handle() == 0 && !old(self).logging_started()),
            final(self).logging_started() == (old(self).logging_started() || item.handle() == 0),
    {
        let handle = item.platform_handle();
        let start_logging = handle == 0 && !self.logging_started;
        if handle == 0 {
            self.logging_started = true;
        }
        self.platforms.insert(handle, item);
        proof {
            assert forall|k: i64| #[trigger] self.platforms().contains_key(k) implies {
                &&& 0 <= k < self.next_platform_handle()
                &&& self.platforms()[k].handle() == k
                &&& self.platforms()[k].well_formed()
            } by {
                if k != handle {
                    assert(old(self).platforms().contains_key(k));
                }
            }
        }
        start_logging
    }

    /// Whether the handle has been handed out by this registry.
    pub fn is_issued(&self, platform_handle: i64) -> (r: bool)
        ensures
            r == (0 <= platform_handle < self.next_platform_handle()),
    {
        0 <= platform_handle && platform_handle < self.handle_rn
    }

    /// Whether a platform is registered under the handle.
    pub fn contains(&self, platform_handle: i64) -> (r: bool)
        ensures
            r == self.platforms().contains_key(platform_handle),
    {
        self.platforms.contains_key(&platform_handle)
    }

    /// The platform registered under the handle, if any.
    pub fn lookup(&self, platform_handle: i64) -> (r: Option<&JavaPlatform<H, C>>)
        ensures
            match r {
                Some(p) => self.platforms().contains_key(platform_handle) && *p
                    == self.platforms()[platform_handle],
                None => !self.platforms().contains_key(platform_handle),
            },
    {
        self.platforms.get(&platform_handle)
    }

    /// Issues a request on the platform registered under `platform_handle`;
    /// fails with `UnknownPlatform` when there is none.
    pub fn send_request(
        &mut self,
        platform_handle: i64,
        connection_id: i32,
        request: &[u8],
        callback: C,
    ) -> (r: Result<OutboundRequest, SendRequestError>)
        requires
            old(self).well_formed(),
        ensures
            final(self).well_formed(),
            !old(self).platforms().contains_key(platform_handle) ==> {
                &&& r == Err::<OutboundRequest, SendRequestError>(
                    SendRequestError::UnknownPlatform { platform_handle },
                )
                &&& registry_unchanged(*old(self), *final(self))
            },
            old(self).platforms().contains_key(platform_handle) ==> {
                &&& only_platform_changed(*old(self), *final(self), platform_handle)
                &&& request_sent(
                    old(self).platforms()[platform_handle],
                    final(self).platforms()[platform_handle],
                    connection_id,
                    request@,
                    callback,
                    r,
                )
            },
    {
        match self.platforms.remove(&platform_handle) {
            None => {
                proof {
                    assert(self.platforms() =~= old(self).platforms());
                }
                Err(SendRequestError::UnknownPlatform { platform_handle })
            },
            Some(platform) => {
                let mut platform = platform;
                proof {
                    assert(platform == old(self).platforms()[platform_handle]);
                }
                let r = platform.send_request(connection_id, request, callback);
                self.platforms.insert(platform_handle, platform);
                proof {
                    assert(self.platforms() =~= old(self).platforms().insert(
                        platform_handle,
                        self.platforms()[platform_handle],
                    ));
                }
                r
            },
        }
    }
}

/// What creating a platform does: it fails only when the handles are spent,
/// changing nothing; otherwise a platform bound to `host`, with an empty table,
/// is registered under the next handle, and logging is to start exactly when
/// that handle is 0 and logging has not started before.
pub open spec fn platform_created<H, C: ResponseCallback>(
    before: PlatformRegistry<H, C>,
    after: PlatformRegistry<H, C>,
    host: H,
    r: Result<Registration, CreateError>,
) -> bool {
    &&& (r is Err) == (before.next_platform_handle() == i64::MAX)
    &&& match r {
        Ok(reg) => {
            let h = reg.platform_handle;
            let p = after.platforms()[h];
            &&& h == before.next_platform_handle()
            &&& !before.platforms().contains_key(h)
            &&& after.platforms() == before.platforms().insert(h, p)
            &&& after.next_platform_handle() == h + 1
            &&& p.handle() == h
            &&& p.host_binding() == host
            &&& p.pending() == Map::<i64, C>::empty()
            &&& p.completed() == Map::<i64, C>::empty()
            &&& p.next_response_handle() == 0
            &&& reg.start_logging == (h == 0 && !before.logging_started())
            &&& after.logging_started() == (before.logging_started() || h == 0)
        },
        Err(e) => {
            &&& e == CreateError::PlatformHandlesExhausted
            &&& registry_unchanged(before, after)
        },
    }
}

impl<H, C: ResponseCallback> JavaPlatform<H, C> {
    /// Creates a platform bound to `host` under a fresh handle and registers it.
    pub fn create(registry: &mut PlatformRegistry<H, C>, host: H) -> (r: Result<
        Registration,
        CreateError,
    >)
        requires
            old(registry).well_formed(),
        ensures
            final(registry).well_formed(),
            platform_created(*old(registry), *final(registry), host, r),
    {
        match registry.generate_platform_handle() {
            None => Err(CreateError::PlatformHandlesExhausted),
            Some(platform_handle) => {
                proof {
                    if old(registry).platforms().contains_key(platform_handle) {
                        assert(platform_handle < old(registry).next_platform_handle());
                    }
                }
                let platform = JavaPlatform::new(platform_handle, host);
                let start_logging = registry.insert_platform_handle(platform);
                Ok(Registration { platform_handle, start_logging })
            },
        }
    }
}

/// Routes a successful response to the platform registered under
/// `platform_handle`, which hands it to the callback waiting under
/// `response_handle`.
pub fn native_on_send_request_success<H, C: ResponseCallback>(
    registry: &mut PlatformRegistry<H, C>,
    response: &[u8],
    platform_handle: i64,
    response_handle: i64,
) -> (r: Delivery)
    requires
        old(registry).well_formed(),
    ensures
        final(registry).well_formed(),
        completion_routed(*old(registry), *final(registry), platform_handle, response_handle, r),
        old(registry).platforms().contains_key(platform_handle) ==> response_handed_over(
            old(registry).platforms()[platform_handle],
            final(registry).platforms()[platform_handle],
            response_handle,
            response@,
            r == Delivery::Delivered,
        ),
{
    match registry.platforms.remove(&platform_handle) {
        None => {
            proof {
                assert(registry.platforms() =~= old(registry).platforms());
            }
            Delivery::UnknownPlatform
        },
        Some(platform) => {
            let mut platform = platform;
            proof {
                assert(platform == old(registry).platforms()[platform_handle]);
            }
            let delivered = platform.on_send_request_success(response, response_handle);
            registry.platforms.insert(platform_handle, platform);
            proof {
                assert(registry.platforms() =~= old(registry).platforms().insert(
                    platform_handle,
                    registry.platforms()[platform_handle],
                ));
            }
            if delivered {
                Delivery::Delivered
            } else {
                Delivery::UnmatchedResponse
            }
        },
    }
}

/// Routes a failure to the platform registered under `platform_handle`, which
/// hands the error code to the callback waiting under `response_handle`.
pub fn native_on_send_request_error<H, C: ResponseCallback>(
    registry: &mut PlatformRegistry<H, C>,
    error_code: i32,
    platform_handle: i64,
    response_handle: i64,
) -> (r: Delivery)
    requires
        old(registry).well_formed(),
    ensures
        final(registry).well_formed(),
        completion_routed(*old(registry), *final(registry), platform_handle, response_handle, r),
        old(registry).platforms().contains_key(platform_handle) ==> error_handed_over(
            old(registry).platforms()[platform_handle],
            final(registry).platforms()[platform_handle],
            response_handle,
            error_code,
            r == Delivery::Delivered,
        ),
{
    match registry.platforms.remove(&platform_handle) {
        None => {
            proof {
                assert(registry.platforms() =~= old(registry).platforms());
            }
            Delivery::UnknownPlatform
        },
        Some(platform) => {
            let mut platform = platform;
            proof {
                assert(platform == old(registry).platforms()[platform_handle]);
            }
            let delivered = platform.on_send_request_error(error_code, response_handle);
            registry.platforms.insert(platform_handle, platform);
            proof {
                assert(registry.platforms() =~= old(registry).platforms().insert(
                    platform_handle,
                    registry.platforms()[platform_handle],
                ));
            }
            if delivered {
                Delivery::Delivered
            } else {
                Delivery::UnmatchedResponse
            }
        },
    }
}

} // verus!
