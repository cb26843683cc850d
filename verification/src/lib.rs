//! A broker that lets many native threads ask a host runtime to exempt
//! network sockets from a device's VPN routing, through one dedicated worker
//! thread that alone may talk to the host.
//!
//! Three parts: the [`broker::SocketProtector`] owning the worker lifecycle
//! and the request/reply queue; the worker side of that queue, a
//! [`broker::Worker`] bundle whose loop an owning thread runs; and the
//! [`tun_callbacks::TunCallbacks`] slot that decouples socket-creation
//! detection from the broker.

use vstd::prelude::*;

pub mod broker;
pub mod chan;
pub mod tun_callbacks;

pub use broker::{ProtectRequest, SocketProtector, Worker};
pub use tun_callbacks::{on_socket_created_stub, TunCallbacks};

verus! {

/// A socket descriptor is valid only when it is strictly positive.
pub open spec fn valid_descriptor(d: i32) -> bool {
    d > 0
}

/// Wires the two halves together for a run: puts `handler` — ordinarily a
/// closure that forwards the descriptor into `protector` — into the callback
/// slot, then commissions the worker. The caller owns the thread that runs
/// the returned bundle.
pub fn start_protect_socket<F: Fn(i32)>(
    callbacks: &mut tun_callbacks::TunCallbacks<F>,
    protector: &mut broker::SocketProtector,
    handler: F,
) -> (worker: broker::Worker)
    requires
        forall|d: i32| call_requires(handler, (d,)),
        !old(protector).is_running(),
    ensures
        final(protector).is_running(),
        final(callbacks).registered() == Some(handler),
        final(callbacks).wf(),
{
    callbacks.set_socket_created_callback(Some(handler));
    protector.start()
}

/// Tears the wiring down: stops the worker — returning only once it has
/// exited — and only then resets the callback slot to the no-op, so that
/// once this returns no handler will forward into the stopped broker.
pub fn stop_protect_socket<F: Fn(i32)>(
    callbacks: &mut tun_callbacks::TunCallbacks<F>,
    protector: &mut broker::SocketProtector,
)
    requires
        old(protector).is_running(),
    ensures
        !final(protector).is_running(),
        final(callbacks).registered() is None,
        final(callbacks).wf(),
{
    protector.stop();
    callbacks.set_socket_created_callback(None);
}

} // verus!
