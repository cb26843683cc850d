//! Trusted boundary to the crossbeam channel primitives the broker is built
//! on. A channel's contents are shared with other threads, so nothing here
//! promises which message, if any, a call will see: every caller must be
//! correct for each outcome.

use vstd::prelude::*;

verus! {

#[verifier::external_type_specification]
#[verifier::external_body]
#[verifier::reject_recursive_types(T)]
pub struct ExSender<T>(crossbeam::channel::Sender<T>);

#[verifier::external_type_specification]
#[verifier::external_body]
#[verifier::reject_recursive_types(T)]
pub struct ExReceiver<T>(crossbeam::channel::Receiver<T>);

/// Relies on crossbeam_channel::unbounded: mints a connected sender/receiver
/// pair for a queue of unlimited capacity.
pub assume_specification<T>[ crossbeam::channel::unbounded::<T> ]() -> (
    crossbeam::channel::Sender<T>,
    crossbeam::channel::Receiver<T>,
);

/// Relies on crossbeam_channel::Receiver::clone: yields one more consuming
/// endpoint of the same queue.
pub assume_specification<T>[ <crossbeam::channel::Receiver<T> as Clone>::clone ](
    rx: &crossbeam::channel::Receiver<T>,
) -> crossbeam::channel::Receiver<T>;

/// Relies on crossbeam_channel::Sender::send: on an unbounded queue it never
/// blocks, and it fails exactly when every receiver was already dropped.
/// Whether that has happened depends on other threads, so nothing is promised
/// of the outcome.
#[verifier::external_body]
pub(crate) fn send_value<T>(tx: &crossbeam::channel::Sender<T>, value: T) -> bool {
    tx.send(value).is_ok()
}

/// Relies on crossbeam_channel::Receiver::recv: blocks until a message
/// arrives (`Some`) or every sender was dropped (`None`). Which message
/// arrives depends on other threads, so nothing is promised of the outcome.
#[verifier::external_body]
pub(crate) fn recv_value<T>(rx: &crossbeam::channel::Receiver<T>) -> Option<T> {
    rx.recv().ok()
}

} // verus!
