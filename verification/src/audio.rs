//! Handing audio packets to the playback thread.
use crate::channel::{AudioQueue, Call, SendOutcome};
use vstd::prelude::*;

verus! {

/// What became of a packet.
pub enum Handover<T> {
    /// It is in the channel.
    Queued,
    /// Nobody listens, and it is dropped.
    Dropped,
    /// There was no room for it.
    Waiting(T),
}

/// What an attempt to hand a packet over has come to.
pub fn handover_after<T>(outcome: SendOutcome<T>) -> (handover: Handover<T>)
    ensures
        handover == match outcome {
            SendOutcome::Sent => Handover::Queued,
            SendOutcome::Full(packet) => Handover::Waiting(packet),
            SendOutcome::Disconnected(_) => Handover::Dropped,
        },
{
    match outcome {
        SendOutcome::Sent => Handover::Queued,
        SendOutcome::Full(packet) => Handover::Waiting(packet),
        SendOutcome::Disconnected(_) => Handover::Dropped,
    }
}

/// The packet was offered again and again, there was never room for it, and each time
/// the oldest message was taken out.
pub open spec fn only_refusals<T>(packet: T, calls: Seq<Call<T>>) -> bool {
    &&& calls.len() % 2 == 0
    &&& forall|i: int|
        0 <= i < calls.len() ==> if i % 2 == 0 {
            (#[trigger] calls[i]) == (Call::Send {
                message: packet,
                outcome: SendOutcome::Full(packet),
            })
        } else {
            calls[i] is Recv
        }
}

/// The calls of a hand-over that has come to this. The packet is offered until the
/// channel takes it or nobody listens; it is still waiting only after as many refusals
/// as can be counted.
pub open spec fn hands_over<T>(packet: T, calls: Seq<Call<T>>, handover: Handover<T>) -> bool {
    match handover {
        Handover::Queued => {
            &&& calls.len() > 0
            &&& only_refusals(packet, calls.drop_last())
            &&& calls.last() == (Call::Send { message: packet, outcome: SendOutcome::<T>::Sent })
        },
        Handover::Dropped => {
            &&& calls.len() > 0
            &&& only_refusals(packet, calls.drop_last())
            &&& calls.last() == (Call::Send {
                message: packet,
                outcome: SendOutcome::Disconnected(packet),
            })
        },
        Handover::Waiting(returned) => {
            &&& returned == packet
            &&& only_refusals(packet, calls)
            &&& calls.len() == 2 * u64::MAX
        },
    }
}

/// The calls that a record has more than an earlier one.
pub open spec fn calls_since<T>(before: Seq<Call<T>>, after: Seq<Call<T>>) -> Seq<Call<T>> {
    after.skip(before.len() as int)
}

/// Hands `packet` to the playback thread. As long as there is no room, the oldest
/// packet is taken out and the hand-over tried again with the same packet. No other
/// call is made on the channel.
pub fn queue_latest_audio<T>(queue: &mut AudioQueue<T>, packet: T) -> (handover: Handover<T>)
    ensures
        final(queue).same_channel(*old(queue)),
        old(queue).log().is_prefix_of(final(queue).log()),
        hands_over(packet, calls_since(old(queue).log(), final(queue).log()), handover),
{
    let ghost before = queue.log();
    let ghost mut refusals: Seq<Call<T>> = Seq::empty();
    let mut waiting = packet;
    let mut tries: u64 = u64::MAX;
    while tries > 0
        invariant
            waiting == packet,
            before == old(queue).log(),
            queue.same_channel(*old(queue)),
            queue.log() == before + refusals,
            only_refusals(packet, refusals),
            refusals.len() == 2 * (u64::MAX - tries),
        decreases tries,
    {
        let outcome = queue.try_send(waiting);
        let ghost offer = Call::Send { message: packet, outcome };
        proof {
            assert(queue.log() =~= before + refusals.push(offer));
            assert(calls_since(before, queue.log()) =~= refusals.push(offer));
            assert(refusals.push(offer).drop_last() =~= refusals);
        }
        match handover_after(outcome) {
            Handover::Queued => {
                return Handover::Queued;
            },
            Handover::Dropped => {
                return Handover::Dropped;
            },
            Handover::Waiting(returned) => {
                waiting = returned;
                let oldest = queue.try_recv();
                proof {
                    let taking = Call::Recv { message: oldest };
                    let more = refusals.push(offer).push(taking);
                    assert(queue.log() =~= before + more);
                    assert(only_refusals(packet, more));
                    refusals = more;
                }
            },
        }
        tries = tries - 1;
    }
    proof {
        assert(calls_since(before, queue.log()) =~= refusals);
    }
    Handover::Waiting(waiting)
}

/// A channel with room for so many messages, whose listener is there and which nobody
/// else uses meanwhile. What it holds stands in the order in which it came.
#[verifier::ext_equal]
pub struct QuietChannel<T> {
    pub capacity: nat,
    pub held: Seq<T>,
}

/// The newest messages, as many as there is room for.
pub open spec fn newest<T>(messages: Seq<T>, room: nat) -> Seq<T> {
    if messages.len() <= room {
        messages
    } else {
        messages.skip(messages.len() - room)
    }
}

impl<T> QuietChannel<T> {
    pub open spec fn wf(self) -> bool {
        0 < self.capacity && self.held.len() <= self.capacity
    }

    /// What the channel answers to a call: it takes a message where there is room, and
    /// gives its oldest message.
    pub open spec fn answers(self, call: Call<T>) -> bool {
        match call {
            Call::Send { message, outcome } => outcome == if self.held.len() < self.capacity {
                SendOutcome::Sent
            } else {
                SendOutcome::Full(message)
            },
            Call::Recv { message } => message == if self.held.len() == 0 {
                None
            } else {
                Some(self.held[0])
            },
        }
    }

    /// What the channel is after a call.
    pub open spec fn after(self, call: Call<T>) -> QuietChannel<T> {
        match call {
            Call::Send { message, outcome } => if outcome is Sent {
                QuietChannel { held: self.held.push(message), ..self }
            } else {
                self
            },
            Call::Recv { message } => if message is Some {
                QuietChannel { held: self.held.drop_first(), ..self }
            } else {
                self
            },
        }
    }

    pub open spec fn after_all(self, calls: Seq<Call<T>>) -> QuietChannel<T>
        decreases calls.len(),
    {
        if calls.len() == 0 {
            self
        } else {
            self.after_all(calls.drop_last()).after(calls.last())
        }
    }

    /// The answers to these calls, one after the other, are the channel's.
    pub open spec fn answers_all(self, calls: Seq<Call<T>>) -> bool
        decreases calls.len(),
    {
        calls.len() == 0 || (self.answers_all(calls.drop_last()) && self.after_all(
            calls.drop_last(),
        ).answers(calls.last()))
    }

    /// A packet has been handed over: the oldest message has left if there was no
    /// room.
    pub open spec fn with(self, packet: T) -> QuietChannel<T> {
        QuietChannel { held: newest(self.held.push(packet), self.capacity), ..self }
    }
}

proof fn calls_in_two_parts<T>(channel: QuietChannel<T>, a: Seq<Call<T>>, b: Seq<Call<T>>)
    ensures
        channel.after_all(a + b) == channel.after_all(a).after_all(b),
        channel.answers_all(a + b) == (channel.answers_all(a) && channel.after_all(
            a,
        ).answers_all(b)),
    decreases b.len(),
{
    if b.len() == 0 {
        assert(a + b =~= a);
    } else {
        calls_in_two_parts(channel, a, b.drop_last());
        assert((a + b).drop_last() =~= a + b.drop_last());
        assert((a + b).last() == b.last());
    }
}

/// A hand-over to a channel that nobody else uses puts the packet into it, behind the
/// others. The oldest message leaves the channel if it was full, and no other.
pub proof fn the_newest_packet_is_queued<T>(
    channel: QuietChannel<T>,
    packet: T,
    calls: Seq<Call<T>>,
    handover: Handover<T>,
)
    requires
        channel.wf(),
        hands_over(packet, calls, handover),
        channel.answers_all(calls),
    ensures
        handover == Handover::<T>::Queued,
        channel.after_all(calls) == channel.with(packet),
        channel.with(packet).wf(),
{
    reveal_with_fuel(QuietChannel::answers_all, 4);
    reveal_with_fuel(QuietChannel::after_all, 4);
    if calls.len() >= 3 {
        let start = calls.take(3);
        calls_in_two_parts(channel, start, calls.skip(3));
        assert(start + calls.skip(3) =~= calls);
        let refused = start.drop_last().drop_last();
        assert(refused.drop_last() =~= Seq::empty());
        assert(start.drop_last().last() == calls[1]);
        assert(refused.last() == calls[0]);
        if handover is Waiting {
            assert(calls[0] is Send && calls[1] is Recv && calls[2] is Send);
        } else {
            assert(calls.drop_last()[0] == calls[0] && calls.drop_last()[1] == calls[1]);
            if calls.len() > 3 {
                assert(calls.drop_last()[2] == calls[2]);
            } else {
                assert(start =~= calls);
            }
        }
        assert(channel.held.drop_first().push(packet) =~= channel.with(packet).held);
    } else {
        assert(calls.len() == 1);
        assert(calls.drop_last() =~= Seq::empty());
    }
    assert(channel.after_all(calls) =~= channel.with(packet));
}

/// Packets were handed over one after the other. `logs` are the records before the
/// first of them and after each.
pub open spec fn hand_overs<T>(
    packets: Seq<T>,
    logs: Seq<Seq<Call<T>>>,
    handovers: Seq<Handover<T>>,
) -> bool {
    &&& logs.len() == packets.len() + 1
    &&& handovers.len() == packets.len()
    &&& forall|i: int|
        0 <= i < packets.len() ==> {
            &&& (#[trigger] logs[i]).is_prefix_of(logs[i + 1])
            &&& hands_over(packets[i], calls_since(logs[i], logs[i + 1]), handovers[i])
        }
}

/// Of the packets that are handed over one after the other to a channel that nobody
/// else uses, every one is put into it, and the newest are left in it, in order, as many
/// as there is room for.
pub proof fn the_newest_packets_are_left<T>(
    channel: QuietChannel<T>,
    packets: Seq<T>,
    logs: Seq<Seq<Call<T>>>,
    handovers: Seq<Handover<T>>,
)
    requires
        channel.wf(),
        hand_overs(packets, logs, handovers),
        channel.answers_all(calls_since(logs[0], logs.last())),
    ensures
        forall|i: int|
            0 <= i < packets.len() ==> (#[trigger] handovers[i]) == Handover::<T>::Queued,
        logs[0].is_prefix_of(logs.last()),
        channel.after_all(calls_since(logs[0], logs.last())) == (QuietChannel {
            held: newest(channel.held + packets, channel.capacity),
            ..channel
        }),
    decreases packets.len(),
{
    if packets.len() == 0 {
        assert(calls_since(logs[0], logs.last()) =~= Seq::empty());
        assert(channel.held + packets =~= channel.held);
    } else {
        let n = packets.len() - 1;
        let before = packets.drop_last();
        let logs_before = logs.drop_last();
        let first = calls_since(logs[0], logs[n]);
        let last = calls_since(logs[n], logs[n + 1]);
        assert(hand_overs(before, logs_before, handovers.drop_last())) by {
            assert forall|i: int| 0 <= i < before.len() implies {
                &&& (#[trigger] logs_before[i]).is_prefix_of(logs_before[i + 1])
                &&& hands_over(
                    before[i],
                    calls_since(logs_before[i], logs_before[i + 1]),
                    handovers.drop_last()[i],
                )
            } by {
                assert(logs_before[i] == logs[i] && logs_before[i + 1] == logs[i + 1]);
            }
        }
        records_grow(packets, logs, handovers, n);
        assert(logs[n].is_prefix_of(logs[n + 1]));
        assert(first + last =~= calls_since(logs[0], logs.last()));
        calls_in_two_parts(channel, first, last);
        the_newest_packets_are_left(channel, before, logs_before, handovers.drop_last());
        let then = channel.after_all(first);
        the_newest_packet_is_queued(then, packets[n], last, handovers[n]);
        assert forall|i: int| 0 <= i < packets.len() implies (#[trigger] handovers[i])
            == Handover::<T>::Queued by {
            if i < n {
                assert(handovers.drop_last()[i] == handovers[i]);
            }
        }
        let all = channel.held + before;
        assert(channel.held + packets =~= all.push(packets[n]));
        assert(newest(newest(all, channel.capacity).push(packets[n]), channel.capacity)
            =~= newest(all.push(packets[n]), channel.capacity));
    }
}

proof fn records_grow<T>(
    packets: Seq<T>,
    logs: Seq<Seq<Call<T>>>,
    handovers: Seq<Handover<T>>,
    n: int,
)
    requires
        hand_overs(packets, logs, handovers),
        0 <= n <= packets.len(),
    ensures
        logs[0].is_prefix_of(logs[n]),
    decreases n,
{
    if n > 0 {
        records_grow(packets, logs, handovers, n - 1);
        assert(logs[n - 1].is_prefix_of(logs[n]));
    }
}

} // verus!
