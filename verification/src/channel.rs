//! The channels of the standard library that carry requests to the backend
//! and results back to the frontend.
//!
//! Both ends of a channel may live on different threads. What a send or a
//! receive returns depends on what the other end has done by then, so no call
//! here promises success, and none says which value a receive finds.

use std::sync::mpsc::Receiver;
use std::sync::mpsc::Sender;
use std::time::Duration;
use vstd::prelude::*;

verus! {

#[verifier::external_type_specification]
#[verifier::external_body]
#[verifier::reject_recursive_types(T)]
pub struct ExSender<T>(std::sync::mpsc::Sender<T>);

#[verifier::external_type_specification]
#[verifier::external_body]
#[verifier::reject_recursive_types(T)]
pub struct ExReceiver<T>(std::sync::mpsc::Receiver<T>);

/// Why a poll returned no value.
#[derive(Clone, Copy, Debug, PartialEq, Eq, Structural)]
pub enum TryRecvError {
    /// Nothing has arrived yet; the sending end is still alive.
    Empty,
    /// The sending end is gone and nothing is left to receive.
    Disconnected,
}

/// Why a bounded wait returned no value.
#[derive(Clone, Copy, Debug, PartialEq, Eq, Structural)]
pub enum RecvTimeoutError {
    /// Nothing arrived within the given time; the sending end is still alive.
    Timeout,
    /// The sending end is gone and nothing is left to receive.
    Disconnected,
}

/// `std::sync::mpsc::channel`: a new unbounded channel and its two ends.
#[verifier::external_body]
pub(crate) fn open<T>() -> (ends: (Sender<T>, Receiver<T>)) {
    std::sync::mpsc::channel()
}

/// `Sender::send`. It never blocks. It fails only where the receiving end is
/// gone, and the error then holds the value that was to be sent.
#[verifier::external_body]
pub(crate) fn send<T>(tx: &Sender<T>, value: T) -> (sent: Result<(), T>)
    ensures
        sent matches Err(refused) ==> refused == value,
{
    match tx.send(value) {
        Ok(()) => Ok(()),
        Err(refused) => Err(refused.0),
    }
}

/// `Receiver::try_recv`. It never blocks.
#[verifier::external_body]
pub(crate) fn poll<T>(rx: &Receiver<T>) -> (polled: Result<T, TryRecvError>) {
    match rx.try_recv() {
        Ok(value) => Ok(value),
        Err(std::sync::mpsc::TryRecvError::Empty) => Err(TryRecvError::Empty),
        Err(std::sync::mpsc::TryRecvError::Disconnected) => Err(TryRecvError::Disconnected),
    }
}

/// `Receiver::recv_timeout`. It blocks the calling thread until a value
/// arrives, the sending end is gone, or `timeout` has passed.
#[verifier::external_body]
pub(crate) fn wait<T>(rx: &Receiver<T>, timeout: Duration) -> (waited: Result<T, RecvTimeoutError>) {
    match rx.recv_timeout(timeout) {
        Ok(value) => Ok(value),
        Err(std::sync::mpsc::RecvTimeoutError::Timeout) => Err(RecvTimeoutError::Timeout),
        Err(std::sync::mpsc::RecvTimeoutError::Disconnected) => Err(RecvTimeoutError::Disconnected),
    }
}

} // verus!
