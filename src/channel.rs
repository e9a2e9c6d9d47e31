//! The one-shot channel that carries a task's result from the worker back to
//! the thread that owns the simulation context.

use vstd::prelude::*;

use crossbeam_channel::{Receiver, Sender};

verus! {

#[verifier::external_type_specification]
#[verifier::external_body]
#[verifier::reject_recursive_types(T)]
pub struct ExSender<T>(Sender<T>);

#[verifier::external_type_specification]
#[verifier::external_body]
#[verifier::reject_recursive_types(T)]
pub struct ExReceiver<T>(Receiver<T>);

/// What a non-blocking receive found.
pub enum Received<T> {
    /// The worker's message.
    Message(T),
    /// Nothing yet: the worker is still running.
    Empty,
    /// Nothing, and nothing will come: the sending end was dropped.
    Disconnected,
}

/// Relies on `crossbeam_channel::unbounded`: a connected pair of ends of a new
/// channel whose sender never blocks.
#[verifier::external_body]
pub(crate) fn open_channel<T>() -> (Sender<T>, Receiver<T>) {
    crossbeam_channel::unbounded()
}

/// Relies on `crossbeam_channel::Receiver::try_recv`: receives without
/// blocking. Which outcome comes depends on the worker's progress, so nothing
/// is promised about it.
#[verifier::external_body]
pub(crate) fn try_receive<T>(recv: &Receiver<T>) -> Received<T> {
    match recv.try_recv() {
        Ok(message) => Received::Message(message),
        Err(crossbeam_channel::TryRecvError::Empty) => Received::Empty,
        Err(crossbeam_channel::TryRecvError::Disconnected) => Received::Disconnected,
    }
}

/// Relies on `crossbeam_channel::Receiver::recv`: blocks until a message
/// arrives, or until the channel is empty and disconnected; it never reports
/// an empty channel. It does not return while the sender lives and sends nothing.
#[verifier::external_body]
pub(crate) fn receive_blocking<T>(recv: &Receiver<T>) -> (r: Received<T>)
    ensures
        !(r is Empty),
{
    match recv.recv() {
        Ok(message) => Received::Message(message),
        Err(crossbeam_channel::RecvError) => Received::Disconnected,
    }
}

/// Relies on `crossbeam_channel::Sender::send`: on an unbounded channel it
/// does not block, and where the receiving end is gone it hands the message
/// back in its error.
#[verifier::external_body]
pub(crate) fn send_message<T>(sender: &Sender<T>, message: T) -> (r: Result<(), T>)
    ensures
        r matches Err(m) ==> m == message,
{
    match sender.send(message) {
        Ok(()) => Ok(()),
        Err(crossbeam_channel::SendError(m)) => Err(m),
    }
}

} // verus!
