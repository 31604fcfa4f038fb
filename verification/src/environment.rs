use vstd::prelude::*;
use crate::backend::{
    backend_accounts, backend_attached, insert_fresh_account, lookup, new_backend, no_accounts,
    read_account, Backend,
};
use crate::channel::{
    channel_ends, history_after, send_batch, sender_history, sender_unbounded, unbounded_channel,
    EventReceiver, EventSender,
};
use crate::primitives::{AccountInfo, Address, Log};

verus! {

/// The execution backend together with the send-ends of the agents' event channels.
pub struct SimulationEnvironment {
    /// The execution backend.
    pub backend: Backend,
    /// The send-ends of the registered channels, in the order of registration.
    pub event_senders: Vec<EventSender>,
}

/// Makes the two ends of an event channel that an environment can register: a channel without
/// a capacity bound through which nothing was sent yet.
pub fn event_channel() -> (ends: (EventSender, EventReceiver))
    ensures
        sender_unbounded(ends.0),
        sender_history(ends.0) == Seq::<Seq<Log>>::empty(),
        channel_ends(ends.0, ends.1),
{
    unbounded_channel()
}

impl SimulationEnvironment {
    /// The backend has its database, and no channel has a capacity bound.
    pub open spec fn wf(&self) -> bool {
        &&& backend_attached(self.backend)
        &&& forall|i: int|
            0 <= i < self.event_senders@.len() ==> sender_unbounded(#[trigger] self.event_senders@[i])
    }

    /// The account records of the backend, by address.
    pub open spec fn accounts(&self) -> Map<Address, AccountInfo> {
        backend_accounts(self.backend)
    }

    /// An environment over a backend without accounts, and with no channel registered.
    pub fn new() -> (environment: SimulationEnvironment)
        ensures
            environment.wf(),
            environment.accounts() == no_accounts(),
            environment.event_senders@.len() == 0,
    {
        SimulationEnvironment { backend: new_backend(), event_senders: Vec::new() }
    }

    /// Registers the send-end of one more channel, after those that are registered.
    pub fn add_sender(&mut self, sender: EventSender)
        requires
            old(self).wf(),
            sender_unbounded(sender),
        ensures
            final(self).wf(),
            final(self).event_senders@ == old(self).event_senders@.push(sender),
            final(self).backend == old(self).backend,
    {
        self.event_senders.push(sender);
    }

    /// Puts the record of a fresh account at `address`. Every other record stays as it is.
    pub fn provision_account(&mut self, address: Address)
        requires
            old(self).wf(),
        ensures
            final(self).wf(),
            final(self).accounts() == old(self).accounts().insert(address, AccountInfo::fresh()),
            final(self).event_senders == old(self).event_senders,
    {
        insert_fresh_account(&mut self.backend, address);
    }

    /// The record that the backend holds at `address`, if it holds one.
    pub fn account_info(&self, address: Address) -> (info: Option<AccountInfo>)
        requires
            self.wf(),
        ensures
            info == lookup(self.accounts(), address),
    {
        read_account(&self.backend, address)
    }

    /// The batches that the channel with the index `i` has taken, oldest first.
    pub open spec fn history(&self, i: int) -> Seq<Seq<Log>> {
        sender_history(self.event_senders@[i])
    }

    /// Whether the channel with the index `i` ends in `receiver`.
    pub open spec fn feeds(&self, i: int, receiver: EventReceiver) -> bool {
        channel_ends(self.event_senders@[i], receiver)
    }

    /// Hands the whole batch, unfiltered, to every registered channel, and tells of each channel
    /// whether it took the batch. A channel that took it has it as the newest of its history; a
    /// channel refuses it only when its receive-end is gone, and then keeps its history. Every
    /// channel keeps its place and its receive-end.
    pub fn echo_logs(&mut self, logs: Vec<Log>) -> (delivered: Vec<bool>)
        requires
            old(self).wf(),
        ensures
            final(self).wf(),
            final(self).backend == old(self).backend,
            final(self).event_senders@.len() == old(self).event_senders@.len(),
            delivered@.len() == old(self).event_senders@.len(),
            forall|i: int|
                0 <= i < delivered@.len() ==> #[trigger] final(self).history(i) == history_after(
                    old(self).history(i),
                    logs@,
                    delivered@[i],
                ),
            forall|i: int, receiver: EventReceiver|
                0 <= i < delivered@.len() ==> #[trigger] final(self).feeds(i, receiver) == old(
                    self,
                ).feeds(i, receiver),
    {
        let mut delivered: Vec<bool> = Vec::new();
        let mut i: usize = 0;
        while i < self.event_senders.len()
            invariant
                backend_attached(self.backend),
                self.backend == old(self).backend,
                self.event_senders@.len() == old(self).event_senders@.len(),
                i <= self.event_senders@.len(),
                delivered@.len() == i,
                forall|k: int|
                    0 <= k < self.event_senders@.len() ==> sender_unbounded(
                        #[trigger] self.event_senders@[k],
                    ),
                forall|k: int|
                    0 <= k < i ==> #[trigger] self.history(k) == history_after(
                        old(self).history(k),
                        logs@,
                        delivered@[k],
                    ),
                forall|k: int|
                    i <= k < self.event_senders@.len() ==> #[trigger] self.event_senders@[k] == old(
                        self,
                    ).event_senders@[k],
                forall|k: int, receiver: EventReceiver|
                    0 <= k < self.event_senders@.len() ==> #[trigger] self.feeds(k, receiver)
                        == old(self).feeds(k, receiver),
            decreases self.event_senders@.len() - i,
        {
            let ghost before = self.event_senders@;
            let ghost flags = delivered@;
            assert forall|k: int| 0 <= k < i implies sender_history(#[trigger] before[k])
                == history_after(old(self).history(k), logs@, flags[k]) by {
                assert(self.history(k) == sender_history(before[k]));
            }
            assert forall|k: int, receiver: EventReceiver|
                0 <= k < before.len() implies #[trigger] channel_ends(before[k], receiver) == old(
                self,
            ).feeds(k, receiver) by {
                assert(self.feeds(k, receiver) == channel_ends(before[k], receiver));
            }
            let took = send_batch(&mut self.event_senders[i], &logs);
            delivered.push(took);
            assert forall|k: int| 0 <= k < i + 1 implies #[trigger] self.history(k)
                == history_after(old(self).history(k), logs@, delivered@[k]) by {
                if k < i {
                    assert(self.event_senders@[k] == before[k]);
                    assert(delivered@[k] == flags[k]);
                }
            }
            i = i + 1;
        }
        delivered
    }
}

} // verus!
