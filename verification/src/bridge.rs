use vstd::prelude::*;

verus! {

/// std::sync::mpsc::Sender, the producer half of the channel that carries a
/// pick result from the file-dialog task back to the redraw loop.
#[verifier::external_type_specification]
#[verifier::external_body]
#[verifier::reject_recursive_types(T)]
pub struct ExSender<T>(std::sync::mpsc::Sender<T>);

/// std::sync::mpsc::Receiver, the consumer half of that channel.
#[verifier::external_type_specification]
#[verifier::external_body]
#[verifier::reject_recursive_types(T)]
pub struct ExReceiver<T>(std::sync::mpsc::Receiver<T>);

/// One delivered pick result: the identifier of the pick request it answers,
/// and the bytes read from the chosen file.
pub type PickResult = (u64, Vec<u8>);

/// Relies on std::sync::mpsc::channel: returns a connected sender/receiver
/// pair. Nothing is claimed of the pair; what arrives at the receiver depends
/// on what other threads send.
#[verifier::external_body]
pub(crate) fn new_pick_channel() -> (std::sync::mpsc::Sender<PickResult>, std::sync::mpsc::Receiver<PickResult>) {
    std::sync::mpsc::channel()
}

/// Relies on std::sync::mpsc::Sender::clone: a fresh producer handle for the
/// same channel, one per pick request.
#[verifier::external_body]
pub(crate) fn clone_sender(s: &std::sync::mpsc::Sender<PickResult>) -> std::sync::mpsc::Sender<PickResult> {
    s.clone()
}

/// Relies on std::sync::mpsc::Receiver::try_recv: returns one pending message
/// without blocking, or nothing. Which it is depends on what other threads
/// have sent, so nothing is claimed of the result.
#[verifier::external_body]
pub(crate) fn try_recv_pick_result(r: &std::sync::mpsc::Receiver<PickResult>) -> Option<PickResult> {
    r.try_recv().ok()
}

} // verus!
