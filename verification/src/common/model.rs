//! What a channel does, told by what goes through it over its whole life.
//!
//! Each end of a channel has a model: the sending end knows what it has sent so far, the
//! receiving end what it has taken so far, and both share the channel's traffic, the sequence of
//! all values that are ever sent on it. The traffic is fixed but known only piece by piece: a send
//! settles its next place, and the end of the last sender settles its length.
use vstd::prelude::*;

verus! {

/// Whether `part` is how `whole` begins.
pub open spec fn begins<T>(part: Seq<T>, whole: Seq<T>) -> bool {
    &&& part.len() <= whole.len()
    &&& forall|i: int| 0 <= i < part.len() ==> #[trigger] whole[i] == part[i]
}

/// What the sending end of a channel stands for.
#[verifier::ext_equal]
pub struct SenderModel<T> {
    /// The values sent through this end so far, the oldest first.
    pub sent: Seq<T>,
    /// All values ever sent on the channel.
    pub traffic: Seq<T>,
    /// How many values the channel can hold; `None` if there is no limit.
    pub bound: Option<nat>,
    /// Whether this is the only sending end that the channel has had.
    pub sole: bool,
}

/// What the receiving end of a channel stands for.
#[verifier::ext_equal]
pub struct ReceiverModel<T> {
    /// The values taken from the channel so far, the oldest first.
    pub received: Seq<T>,
    /// All values ever sent on the channel.
    pub traffic: Seq<T>,
}

impl<T> SenderModel<T> {
    /// The end is its channel's only one, so what it has sent opens the traffic.
    pub open spec fn valid(self) -> bool {
        self.sole && begins(self.sent, self.traffic)
    }

    /// A new end of a channel with the given traffic and bound.
    pub open spec fn fresh(self) -> bool {
        self.sole && self.sent == Seq::<T>::empty()
    }

    /// The model after `value` has been sent.
    pub open spec fn push(self, value: T) -> SenderModel<T> {
        SenderModel { sent: self.sent.push(value), ..self }
    }
}

impl<T> ReceiverModel<T> {
    /// What has been taken opens the traffic.
    pub open spec fn valid(self) -> bool {
        begins(self.received, self.traffic)
    }

    /// The value that comes next; `None` if the traffic has been taken to its end.
    pub open spec fn upcoming(self) -> Option<T> {
        if self.received.len() < self.traffic.len() {
            Some(self.traffic[self.received.len() as int])
        } else {
            None
        }
    }

    /// The model after a call that has returned `value`.
    pub open spec fn after(self, value: Option<T>) -> ReceiverModel<T> {
        match value {
            Some(v) => ReceiverModel { received: self.received.push(v), ..self },
            None => self,
        }
    }
}

/// The receiving end after `calls` calls that each take the next value if there is one.
pub open spec fn after_calls<T>(rx: ReceiverModel<T>, calls: nat) -> ReceiverModel<T>
    decreases calls,
{
    if calls == 0 {
        rx
    } else {
        let earlier = after_calls(rx, (calls - 1) as nat);
        earlier.after(earlier.upcoming())
    }
}

/// What comes out of a channel is what went in, in the same order: the two ends agree on every
/// value that both have seen.
pub proof fn values_keep_their_order<T>(tx: SenderModel<T>, rx: ReceiverModel<T>, i: int)
    requires
        tx.valid(),
        rx.valid(),
        tx.traffic == rx.traffic,
        0 <= i < tx.sent.len(),
        0 <= i < rx.received.len(),
    ensures
        rx.received[i] == tx.sent[i],
{
    assert(tx.traffic[i] == tx.sent[i]);
}

/// No value that was sent is lost: as long as some have not been taken, the oldest of them comes
/// next.
pub proof fn oldest_value_comes_next<T>(tx: SenderModel<T>, rx: ReceiverModel<T>)
    requires
        tx.valid(),
        rx.valid(),
        tx.traffic == rx.traffic,
        rx.received.len() < tx.sent.len(),
    ensures
        rx.upcoming() == Some(tx.sent[rx.received.len() as int]),
{
}

/// Nothing arrives that was not sent through the channel's own sender: when that sender is gone,
/// what has been taken is how its values begin, and what comes next is the next of them. Of a
/// sender that has sent nothing, nothing arrives.
pub proof fn only_what_was_sent_arrives<T>(tx: SenderModel<T>, rx: ReceiverModel<T>)
    requires
        rx.valid(),
        tx.traffic == rx.traffic,
        tx.traffic == tx.sent,
    ensures
        begins(rx.received, tx.sent),
        rx.upcoming() == if rx.received.len() < tx.sent.len() {
            Some(tx.sent[rx.received.len() as int])
        } else {
            None
        },
        tx.sent.len() == 0 ==> rx.received.len() == 0 && rx.upcoming() is None,
{
}

/// Calls take the traffic from its start, value by value, each once, and no further than its end.
pub proof fn calls_take_the_traffic<T>(rx: ReceiverModel<T>, calls: nat)
    requires
        rx.valid(),
    ensures
        after_calls(rx, calls).valid(),
        after_calls(rx, calls).traffic == rx.traffic,
        after_calls(rx, calls).received == rx.traffic.take(
            if rx.received.len() + calls < rx.traffic.len() {
                (rx.received.len() + calls) as int
            } else {
                rx.traffic.len() as int
            },
        ),
    decreases calls,
{
    if calls == 0 {
        assert(rx.received =~= rx.traffic.take(rx.received.len() as int));
    } else {
        calls_take_the_traffic(rx, (calls - 1) as nat);
        let earlier = after_calls(rx, (calls - 1) as nat);
        let n = earlier.received.len() as int;
        if n < rx.traffic.len() {
            assert(rx.traffic.take(n).push(rx.traffic[n]) =~= rx.traffic.take(n + 1));
        } else {
            assert(rx.traffic.take(n) =~= rx.traffic);
        }
    }
}

/// A channel whose sender is gone gives out all that was sent, and after that nothing any more.
pub proof fn closed_channel_drains<T>(tx: SenderModel<T>, rx: ReceiverModel<T>, calls: nat)
    requires
        tx.valid(),
        rx.valid(),
        tx.traffic == rx.traffic,
        tx.traffic == tx.sent,
        rx.received.len() + calls >= tx.sent.len(),
    ensures
        after_calls(rx, calls).received == tx.sent,
        after_calls(rx, calls).upcoming() is None,
{
    calls_take_the_traffic(rx, calls);
    assert(rx.traffic.take(rx.traffic.len() as int) =~= rx.traffic);
}

} // verus!
