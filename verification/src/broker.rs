//! The protection broker: lifecycle state, the many-producers/one-consumer
//! request queue, and the worker loop that serves it.

use vstd::prelude::*;

use crate::chan::{recv_value, send_value};
use crate::valid_descriptor;
use core::sync::atomic::AtomicBool;
use std::sync::Arc;

verus! {

/// A request travelling from a caller thread to the worker: the descriptor to
/// protect, paired with the caller's private one-shot reply channel.
pub struct ProtectRequest {
    pub descriptor: i32,
    pub reply: crossbeam::channel::Sender<bool>,
}

/// Everything the worker thread needs from the broker: the shared running
/// flag, the consuming end of the request queue, and the channel whose
/// disconnection tells `stop` that the worker is gone.
pub struct Worker {
    pub(crate) running_flag: Arc<AtomicBool>,
    pub(crate) requests: crossbeam::channel::Receiver<ProtectRequest>,
    pub(crate) done: crossbeam::channel::Sender<()>,
}

/// The broker owning the worker lifecycle and the request queue. Exactly one
/// worker may run at a time; `start` and `stop` must alternate.
pub struct SocketProtector {
    running: bool,
    running_flag: Arc<AtomicBool>,
    request_tx: crossbeam::channel::Sender<ProtectRequest>,
    request_rx: crossbeam::channel::Receiver<ProtectRequest>,
    done_rx: crossbeam::channel::Receiver<()>,
}

/// Relies on std's Arc::clone: hands out another reference to the same
/// allocation, hence to the same value.
#[verifier::external_body]
fn clone_flag(flag: &Arc<AtomicBool>) -> (r: Arc<AtomicBool>)
    ensures
        r == *flag,
{
    Arc::clone(flag)
}

impl SocketProtector {
    /// Whether a worker has been commissioned and not yet stopped.
    pub closed spec fn is_running(&self) -> bool {
        self.running
    }

    /// Creates an idle broker: a fresh request queue and no worker.
    pub fn init() -> (protector: SocketProtector)
        ensures
            !protector.is_running(),
    {
        let (request_tx, request_rx) = crossbeam::channel::unbounded();
        // The sender half is dropped at once, so until `start` replaces this
        // receiver, waiting on it returns immediately.
        let (_idle_done_tx, done_rx) = crossbeam::channel::unbounded::<()>();
        SocketProtector {
            running: false,
            running_flag: Arc::new(AtomicBool::new(false)),
            request_tx,
            request_rx,
            done_rx,
        }
    }

    /// Discards the broker. Consuming the value makes a later `protect_socket`
    /// a compile-time error rather than a call that hangs.
    pub fn release(self)
        requires
            !self.is_running(),
    {
    }

    /// Commissions one worker: raises the shared running flag and hands back
    /// the bundle the worker thread runs on (see `Worker::should_run` for the
    /// loop). The caller owns the thread that runs it; the broker itself
    /// never spawns one.
    pub fn start(&mut self) -> (worker: Worker)
        requires
            !old(self).is_running(),
        ensures
            final(self).is_running(),
    {
        self.running_flag
            .store(true, core::sync::atomic::Ordering::SeqCst);
        let (done_tx, done_rx) = crossbeam::channel::unbounded::<()>();
        self.done_rx = done_rx;
        self.running = true;
        Worker {
            running_flag: clone_flag(&self.running_flag),
            requests: self.request_rx.clone(),
            done: done_tx,
        }
    }

    /// Decommissions the worker: lowers the shared running flag, submits one
    /// synthetic invalid-descriptor request purely to unblock a worker parked
    /// on the queue, then waits until the worker's side of the done channel
    /// is gone — that is, until the worker loop has returned.
    pub fn stop(&mut self)
        requires
            old(self).is_running(),
        ensures
            !final(self).is_running(),
    {
        self.running_flag
            .store(false, core::sync::atomic::Ordering::SeqCst);
        // The poison request carries a throwaway reply channel: the answer,
        // always `false`, is of no interest, and a worker that is already
        // gone must not be waited on here.
        let (poison_reply_tx, _poison_reply_rx) = crossbeam::channel::unbounded::<bool>();
        let _ = send_value(
            &self.request_tx,
            ProtectRequest { descriptor: -1, reply: poison_reply_tx },
        );
        // Blocks until the worker drops its end; returns at once if it
        // already has.
        let _ = recv_value(&self.done_rx);
        self.running = false;
    }

    /// Asks the worker to protect `socket` and blocks until it answers.
    ///
    /// A descriptor that can never name a socket is rejected here, without
    /// touching the queue or the host runtime. A broker with no commissioned
    /// worker answers `false` at once rather than parking the caller forever.
    /// Otherwise the result is the worker's answer, or `false` if the reply
    /// channel was abandoned before one arrived.
    pub fn protect_socket(&self, socket: i32) -> (protected: bool)
        ensures
            !valid_descriptor(socket) ==> !protected,
            !self.is_running() ==> !protected,
    {
        if socket <= 0 {
            return false;
        }
        if !self.running {
            return false;
        }
        let (reply_tx, reply_rx) = crossbeam::channel::unbounded::<bool>();
        if !send_value(&self.request_tx, ProtectRequest { descriptor: socket, reply: reply_tx }) {
            return false;
        }
        match recv_value(&reply_rx) {
            Some(answer) => answer,
            None => false,
        }
    }
}

/// The answer owed for one request: `false` for a descriptor that can never
/// name a socket — the host is not consulted for those — and otherwise
/// exactly what the host call answered.
pub fn reply_for_descriptor<F: Fn(i32) -> bool + Copy>(descriptor: i32, host_call: F) -> (verdict: bool)
    requires
        valid_descriptor(descriptor) ==> call_requires(host_call, (descriptor,)),
    ensures
        !valid_descriptor(descriptor) ==> !verdict,
        valid_descriptor(descriptor) ==> call_ensures(host_call, (descriptor,), verdict),
{
    if descriptor <= 0 {
        false
    } else {
        host_call(descriptor)
    }
}

/// For a genuine descriptor, the broker's reply is never anything but the
/// host call's own answer: whenever every answer the host call can give for
/// `descriptor` is one fixed value, the verdict delivered for that
/// descriptor — which `reply_for_descriptor` ensures is a possible host
/// answer — equals that value. In particular, a host call that can only
/// answer `true` makes the reply `true`, and one that can only answer
/// `false` (or that turns every host-side error into `false`) makes it
/// `false`.
pub proof fn lemma_reply_is_hosts_answer<F: Fn(i32) -> bool + Copy>(
    host_call: F,
    descriptor: i32,
    verdict: bool,
    answer: bool,
)
    requires
        valid_descriptor(descriptor),
        call_ensures(host_call, (descriptor,), verdict),
        forall|r: bool| call_ensures(host_call, (descriptor,), r) ==> r == answer,
    ensures
        verdict == answer,
{
}

impl Worker {
    /// Reads the shared running flag: `true` while the broker wants this
    /// worker serving. The flag is written from other threads, so nothing is
    /// promised of the value read. The thread that owns the worker runs
    ///
    /// ```text
    /// while worker.should_run() {
    ///     if !worker.handle_protect_socket_request(host_call) { break; }
    /// }
    /// ```
    ///
    /// and drops the bundle when the loop ends, which is what releases
    /// `stop`.
    pub fn should_run(&self) -> bool {
        self.running_flag.load(core::sync::atomic::Ordering::SeqCst)
    }

    /// Serves one request: waits for the next one, computes the answer with
    /// `reply_for_descriptor` — so a descriptor that can never name a socket
    /// is answered `false` without the host call, and any other request is
    /// answered with exactly the host call's verdict — and delivers it on the
    /// request's own reply channel. A failed delivery means that caller gave
    /// up; the worker goes on. Returns `false` only when the queue itself is
    /// gone (every sender dropped), after which no request can ever arrive.
    pub fn handle_protect_socket_request<F: Fn(i32) -> bool + Copy>(&self, host_call: F) -> (queue_alive: bool)
        requires
            forall|d: i32| valid_descriptor(d) ==> call_requires(host_call, (d,)),
    {
        match recv_value(&self.requests) {
            Some(request) => {
                let verdict = reply_for_descriptor(request.descriptor, host_call);
                let _ = send_value(&request.reply, verdict);
                true
            }
            None => false,
        }
    }
}

} // verus!
