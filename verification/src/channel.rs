//! The channel to the playback thread, with a record of what was asked of it.
use vstd::prelude::*;

verus! {

#[verifier::external_type_specification]
#[verifier::external_body]
#[verifier::reject_recursive_types(T)]
pub struct ExSender<T>(crossbeam_channel::Sender<T>);

#[verifier::external_type_specification]
#[verifier::external_body]
#[verifier::reject_recursive_types(T)]
pub struct ExReceiver<T>(crossbeam_channel::Receiver<T>);

/// What came of an attempt to put a message into a channel.
pub enum SendOutcome<T> {
    Sent,
    Full(T),
    Disconnected(T),
}

/// A call on the channel, with its answer.
pub enum Call<T> {
    /// A message was offered.
    Send { message: T, outcome: SendOutcome<T> },
    /// The oldest message was asked for.
    Recv { message: Option<T> },
}

/// Both ends of the channel: packets go in at one, and the oldest is taken out at the
/// other where there is no room. Only the calls of this module add to the record.
#[verifier::reject_recursive_types(T)]
pub struct AudioQueue<T> {
    tx: crossbeam_channel::Sender<T>,
    drop_rx: crossbeam_channel::Receiver<T>,
    calls: Ghost<Seq<Call<T>>>,
}

impl<T> AudioQueue<T> {
    /// The calls that were made through this queue, in order.
    pub closed spec fn log(self) -> Seq<Call<T>> {
        self.calls@
    }

    pub closed spec fn sender(self) -> crossbeam_channel::Sender<T> {
        self.tx
    }

    pub closed spec fn receiver(self) -> crossbeam_channel::Receiver<T> {
        self.drop_rx
    }

    /// It is a queue on the same channel.
    pub open spec fn same_channel(self, other: AudioQueue<T>) -> bool {
        self.sender() == other.sender() && self.receiver() == other.receiver()
    }

    pub fn new(
        tx: crossbeam_channel::Sender<T>,
        drop_rx: crossbeam_channel::Receiver<T>,
    ) -> (queue: AudioQueue<T>)
        ensures
            queue.sender() == tx,
            queue.receiver() == drop_rx,
            queue.log() == Seq::<Call<T>>::empty(),
    {
        AudioQueue { tx, drop_rx, calls: Ghost(Seq::empty()) }
    }

    /// `crossbeam_channel::Sender::try_send` does not wait. Where it does not take
    /// the message, it hands the very same message back. The call and its answer are
    /// added to the record. Which of the three outcomes occurs depends on the other
    /// threads that use the channel, so nothing is said of that, nor of what the
    /// channel holds.
    #[verifier::external_body]
    pub(crate) fn try_send(&mut self, message: T) -> (outcome: SendOutcome<T>)
        ensures
            final(self).same_channel(*old(self)),
            final(self).log() == old(self).log().push(Call::Send { message, outcome }),
            match outcome {
                SendOutcome::Sent => true,
                SendOutcome::Full(returned) => returned == message,
                SendOutcome::Disconnected(returned) => returned == message,
            },
    {
        match self.tx.try_send(message) {
            Ok(()) => SendOutcome::Sent,
            Err(crossbeam_channel::TrySendError::Full(returned)) => SendOutcome::Full(returned),
            Err(crossbeam_channel::TrySendError::Disconnected(returned)) => {
                SendOutcome::Disconnected(returned)
            },
        }
    }

    /// `crossbeam_channel::Receiver::try_recv` takes the oldest message out of the
    /// channel if there is one. The call and its answer are added to the record.
    /// Whether there is a message, and which, depends on the other threads, so nothing
    /// is said of that.
    #[verifier::external_body]
    pub(crate) fn try_recv(&mut self) -> (message: Option<T>)
        ensures
            final(self).same_channel(*old(self)),
            final(self).log() == old(self).log().push(Call::Recv { message }),
    {
        self.drop_rx.try_recv().ok()
    }
}

} // verus!
