//! The decisions of a single-slot channel in which every new value replaces
//! the one that was not yet received. The waiting and locking around the slot
//! happen outside; here is what a send and a receive do to the slot.
use vstd::prelude::*;

verus! {

#[derive(Debug)]
pub enum SendError {
    ReveiverDropped,
}

#[derive(Debug)]
pub enum RecvError {
    SenderDropped,
}

/// What one attempt to receive comes to.
pub enum RecvPoll<T> {
    /// The receive is over, with a value or with an error.
    Ready(Result<T, RecvError>),
    /// Nothing to take yet: wait for a notification and try again.
    Pending,
}

/// The slot after a send.
pub open spec fn slot_after_send<T>(slot: Option<T>, receiver_active: bool, value: T) -> Option<T> {
    if receiver_active {
        Some(value)
    } else {
        slot
    }
}

/// The outcome of a send.
pub open spec fn send_outcome(receiver_active: bool) -> Result<(), SendError> {
    if receiver_active {
        Ok(())
    } else {
        Err(SendError::ReveiverDropped)
    }
}

/// The outcome of one attempt to receive: a waiting value is delivered
/// first, even when the sender is already gone; only an empty slot with no
/// sender left ends the receive with an error.
pub open spec fn recv_outcome<T>(slot: Option<T>, sender_active: bool) -> RecvPoll<T> {
    match slot {
        Some(v) => RecvPoll::Ready(Ok(v)),
        None => if sender_active {
            RecvPoll::Pending
        } else {
            RecvPoll::Ready(Err(RecvError::SenderDropped))
        },
    }
}

/// The shared slot of the channel.
pub struct WatchSlot<T> {
    value: Option<T>,
}

impl<T> View for WatchSlot<T> {
    type V = Option<T>;

    closed spec fn view(&self) -> Option<T> {
        self.value
    }
}

impl<T> WatchSlot<T> {
    /// An empty slot.
    pub fn new() -> (r: Self)
        ensures
            r@ == Option::<T>::None,
    {
        WatchSlot { value: None }
    }

    /// Sends `value`: if the receiver is still there, the value replaces
    /// whatever the slot held; otherwise the send fails and the slot is left
    /// as it was.
    pub fn send(&mut self, receiver_active: bool, value: T) -> (r: Result<(), SendError>)
        ensures
            final(self)@ == slot_after_send(old(self)@, receiver_active, value),
            r == send_outcome(receiver_active),
    {
        if receiver_active {
            self.value = Some(value);
            Ok(())
        } else {
            Err(SendError::ReveiverDropped)
        }
    }

    /// One attempt to receive: takes the waiting value out of the slot if
    /// there is one; otherwise fails once the sender is gone, and asks to wait
    /// while it is alive. The slot is empty afterwards.
    pub fn poll_recv(&mut self, sender_active: bool) -> (r: RecvPoll<T>)
        ensures
            final(self)@ == Option::<T>::None,
            r == recv_outcome(old(self)@, sender_active),
    {
        match self.value.take() {
            Some(v) => RecvPoll::Ready(Ok(v)),
            None => if sender_active {
                RecvPoll::Pending
            } else {
                RecvPoll::Ready(Err(RecvError::SenderDropped))
            },
        }
    }
}

/// While both ends are alive, a receive gives back the value of the last
/// send, whatever was sent before it.
pub proof fn lemma_recv_gets_last_send<T>(slot: Option<T>, first: T, second: T)
    ensures
        recv_outcome(
            slot_after_send(slot_after_send(slot, true, first), true, second),
            true,
        ) == RecvPoll::<T>::Ready(Ok(second)),
{
}

/// A value is received at most once: right after a receive, the slot is
/// empty, so the next receive (with no send in between) waits, or fails once
/// the sender is gone.
pub proof fn lemma_value_received_once<T>()
    ensures
        recv_outcome(Option::<T>::None, true) == RecvPoll::<T>::Pending,
        recv_outcome(Option::<T>::None, false) == RecvPoll::<T>::Ready(Err(RecvError::SenderDropped)),
{
}

/// A value sent while the receiver was alive is still received after the
/// sender has gone.
pub proof fn lemma_value_outlives_sender<T>(slot: Option<T>, value: T)
    ensures
        recv_outcome(slot_after_send(slot, true, value), false) == RecvPoll::<T>::Ready(Ok(value)),
{
}

/// Once the receiver is gone, every send fails and leaves the slot alone.
pub proof fn lemma_send_after_receiver_dropped<T>(slot: Option<T>, value: T)
    ensures
        send_outcome(false) == Err::<(), SendError>(SendError::ReveiverDropped),
        slot_after_send(slot, false, value) == slot,
{
}

} // verus!
