//! The socket-created callback slot: the indirection that lets the packet
//! layer report a new socket without depending on the host-bridge side.

use vstd::prelude::*;

verus! {

/// A single-valued slot holding the current "socket created" handler.
/// `None` stands for the built-in no-op handler, so notifying is always
/// possible. The component that starts and stops the broker is the only
/// writer; any thread may notify.
pub struct TunCallbacks<F: Fn(i32)> {
    callback: Option<F>,
}

impl<F: Fn(i32)> TunCallbacks<F> {
    /// The handler currently in the slot; `None` stands for the no-op.
    pub closed spec fn registered(&self) -> Option<F> {
        self.callback
    }

    /// A handler in the slot accepts every descriptor, so a notification can
    /// never arrive that the handler's own precondition rejects.
    pub closed spec fn wf(&self) -> bool {
        self.callback matches Some(f) ==> forall|d: i32| call_requires(f, (d,))
    }

    /// A slot holding the no-op handler.
    pub fn new() -> (callbacks: Self)
        ensures
            callbacks.registered() is None,
            callbacks.wf(),
    {
        TunCallbacks { callback: None }
    }

    /// Replaces the slot's handler; `None` resets it to the no-op. Cannot
    /// fail, and readers see either the previous or the new handler, never a
    /// mixture, because the slot is a single value.
    pub fn set_socket_created_callback(&mut self, callback: Option<F>)
        requires
            callback matches Some(f) ==> forall|d: i32| call_requires(f, (d,)),
        ensures
            final(self).registered() == callback,
            final(self).wf(),
    {
        self.callback = callback;
    }

    /// Invokes the current handler, synchronously and on the calling thread,
    /// with the given descriptor: the registered handler exactly once if one
    /// is registered, the no-op otherwise.
    pub fn on_socket_created(&self, socket: i32)
        requires
            self.wf(),
        ensures
            self.registered() matches Some(f) ==> call_ensures(f, (socket,), ()),
    {
        match &self.callback {
            Some(callback) => {
                callback(socket);
            }
            None => {
                on_socket_created_stub(socket);
            }
        }
    }
}

/// The no-op handler the slot falls back to: accepts any descriptor and does
/// nothing with it.
pub fn on_socket_created_stub(_socket: i32) {
}

} // verus!
