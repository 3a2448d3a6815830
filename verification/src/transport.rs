//! The job transport: a single-producer, single-consumer path that carries
//! exactly one terminal message from a worker back to the controller.

use vstd::prelude::*;

verus! {

/// The single terminal message a worker ever sends for one job: the encoded
/// image on success, a human-readable description on failure.
#[derive(Clone, Debug, PartialEq)]
pub enum JobResult {
    Success { png_bytes: Vec<u8> },
    Failure { message: String },
}

/// What one non-blocking look at the transport showed: nothing yet, the one
/// message, or a sending end that is gone without having sent.
pub enum TransportEvent {
    Pending,
    Delivered(JobResult),
    Closed,
}

#[verifier::external_type_specification]
#[verifier::external_body]
#[verifier::reject_recursive_types(T)]
pub struct ExSender<T>(std::sync::mpsc::Sender<T>);

#[verifier::external_type_specification]
#[verifier::external_body]
#[verifier::reject_recursive_types(T)]
pub struct ExReceiver<T>(std::sync::mpsc::Receiver<T>);

/// Relies on std::sync::mpsc::channel: a connected sender/receiver pair.
/// The pair carries one job's report; neither half is ever reused.
#[verifier::external_body]
pub(crate) fn open_transport() -> (pair: (
    std::sync::mpsc::Sender<JobResult>,
    std::sync::mpsc::Receiver<JobResult>,
))
{
    std::sync::mpsc::channel()
}

/// Relies on std::sync::mpsc::Sender::send: the message is placed in the
/// channel, or comes back unchanged inside the error when the receiving end
/// was dropped. Taking the sender by value keeps the transport one-shot:
/// verified code cannot send through it twice.
#[verifier::external_body]
pub(crate) fn transport_send(
    tx: std::sync::mpsc::Sender<JobResult>,
    message: JobResult,
) -> (r: Result<(), JobResult>)
    ensures
        r matches Err(m) ==> m == message,
{
    match tx.send(message) {
        Ok(()) => Ok(()),
        Err(std::sync::mpsc::SendError(m)) => Err(m),
    }
}

/// Relies on std::sync::mpsc::Receiver::try_recv: it never blocks, and yields
/// a waiting message, or reports the channel empty, or reports the sending end
/// gone. Which event comes back depends on the worker thread, so nothing is
/// promised of it: every caller must handle all three.
#[verifier::external_body]
pub(crate) fn transport_poll(
    rx: &std::sync::mpsc::Receiver<JobResult>,
) -> (ev: TransportEvent)
{
    match rx.try_recv() {
        Ok(m) => TransportEvent::Delivered(m),
        Err(std::sync::mpsc::TryRecvError::Empty) => TransportEvent::Pending,
        Err(std::sync::mpsc::TryRecvError::Disconnected) => TransportEvent::Closed,
    }
}

} // verus!
