use vstd::prelude::*;
use crate::primitives::Log;

verus! {

/// `crossbeam_channel::Sender`, the send-end of a channel. Nothing inside it is visible here.
#[verifier::external_type_specification]
#[verifier::external_body]
#[verifier::reject_recursive_types(T)]
pub struct ExSender<T>(crossbeam_channel::Sender<T>);

/// `crossbeam_channel::Receiver`, the receive-end of a channel. Nothing inside it is visible
/// here.
#[verifier::external_type_specification]
#[verifier::external_body]
#[verifier::reject_recursive_types(T)]
pub struct ExReceiver<T>(crossbeam_channel::Receiver<T>);

/// The send-end of an agent's event channel.
pub type EventSender = crossbeam_channel::Sender<Vec<Log>>;

/// The receive-end of an agent's event channel.
pub type EventReceiver = crossbeam_channel::Receiver<Vec<Log>>;

/// Whether the channel behind `sender` was made without a capacity bound.
pub uninterp spec fn sender_unbounded(sender: crossbeam_channel::Sender<Vec<Log>>) -> bool;

/// The batches that the channel has taken through `sender`, oldest first.
pub uninterp spec fn sender_history(sender: crossbeam_channel::Sender<Vec<Log>>) -> Seq<Seq<Log>>;

/// Whether `sender` and `receiver` are the two ends of one channel.
pub uninterp spec fn channel_ends(
    sender: crossbeam_channel::Sender<Vec<Log>>,
    receiver: crossbeam_channel::Receiver<Vec<Log>>,
) -> bool;

/// The history of a send-end after it was handed `batch`: the batch is added at the end where
/// the channel took it, and nothing changes where it did not.
pub open spec fn history_after(history: Seq<Seq<Log>>, batch: Seq<Log>, delivered: bool) -> Seq<
    Seq<Log>,
> {
    if delivered {
        history.push(batch)
    } else {
        history
    }
}

/// Calls `crossbeam_channel::unbounded`: the two ends of a new channel without a capacity bound,
/// through which nothing was sent yet.
#[verifier::external_body]
pub(crate) fn unbounded_channel() -> (ends: (EventSender, EventReceiver))
    ensures
        sender_unbounded(ends.0),
        sender_history(ends.0) == Seq::<Seq<Log>>::empty(),
        channel_ends(ends.0, ends.1),
{
    crossbeam_channel::unbounded()
}

/// Calls `Sender::send` with a copy of `batch`. On a channel without a capacity bound the call
/// does not block. The result tells whether the channel took the batch, which then is the
/// newest of its history; the channel refuses it only when every receive-end is gone. The
/// send-end stays the end of the channel that it was. The send-end is taken by `&mut`, though
/// the call needs no more than `&`, so that the history can be told before and after.
#[verifier::external_body]
pub(crate) fn send_batch(sender: &mut EventSender, batch: &Vec<Log>) -> (delivered: bool)
    requires
        sender_unbounded(*old(sender)),
    ensures
        sender_unbounded(*final(sender)),
        sender_history(*final(sender)) == history_after(
            sender_history(*old(sender)),
            batch@,
            delivered,
        ),
        forall|receiver: EventReceiver| #[trigger]
            channel_ends(*final(sender), receiver) == channel_ends(*old(sender), receiver),
{
    sender.send(batch.clone()).is_ok()
}

} // verus!
