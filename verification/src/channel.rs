//! Trusted declarations for the message-passing channels the driver's tasks
//! communicate over.
//!
//! The mixer never blocks on, retries, or surfaces a failed send: every send
//! towards a network task is fire-and-forget, so nothing more than the shape
//! of the API is assumed here.

use vstd::prelude::*;

verus! {

/// Declares flume's `Sender`, the transmitting end of a channel, so that it
/// can stand in signatures and fields. Its internals stay opaque.
#[verifier::external_type_specification]
#[verifier::external_body]
#[verifier::reject_recursive_types(T)]
pub struct ExSender<T>(flume::Sender<T>);

/// Declares flume's `SendError`, which hands a message back when every
/// receiver of the channel has been dropped.
#[verifier::external_type_specification]
#[verifier::external_body]
#[verifier::reject_recursive_types(T)]
pub struct ExSendError<T>(flume::SendError<T>);

/// Relies on flume's `Sender::send`: the message is queued, or returned
/// inside `SendError` once every receiver is gone. Which of the two happens
/// depends on the channel's runtime state, so nothing is promised of the
/// result; on the unbounded channels this library uses, the call never
/// blocks.
pub assume_specification<T>[ flume::Sender::<T>::send ](
    sender: &flume::Sender<T>,
    msg: T,
) -> Result<(), flume::SendError<T>>;

/// Relies on flume's `Clone` impl for `Sender`: cloning yields one more
/// handle onto the same channel, and never fails.
pub assume_specification<T>[ <flume::Sender<T> as Clone>::clone ](
    sender: &flume::Sender<T>,
) -> flume::Sender<T>;

} // verus!
