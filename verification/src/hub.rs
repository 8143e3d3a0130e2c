//! The broadcast hub: a single bounded fan-out queue of chat events.
//!
//! One producer side is shared by all sessions; every active session owns a
//! [`Subscriber`] that sees each event published after it subscribed.  The
//! hub retains only the latest `capacity` events: a subscriber whose unread
//! backlog would exceed the capacity has its oldest unread events dropped,
//! and its next receive reports exactly how many were skipped.

use vstd::prelude::*;

use crate::server::{Message, MessageV};

verus! {

/// The mathematical value of the hub: its capacity and the full sequence of
/// events ever published to it, oldest first.
#[verifier::ext_equal]
pub ghost struct HubV {
    pub capacity: nat,
    pub history: Seq<MessageV>,
}

impl HubV {
    /// How many events have ever been published.
    pub open spec fn published(self) -> nat {
        self.history.len()
    }

    /// The position of the oldest event the hub still retains; everything
    /// before it is gone for any subscriber that has not read it yet.
    pub open spec fn first_retained(self) -> nat {
        if self.history.len() <= self.capacity {
            0
        } else {
            (self.history.len() - self.capacity) as nat
        }
    }
}

/// The bounded fan-out queue.  Only the latest `capacity` events are kept;
/// the count of all events ever published is tracked so that subscribers can
/// be told exactly how far they fell behind.
pub struct Hub {
    capacity: usize,
    buffer: Vec<Message>,
    published: u64,
    history: Ghost<Seq<MessageV>>,
}

/// A private cursor onto the hub, advancing independently of every other
/// subscriber.  Its view is the position of the next event it will read.
pub struct Subscriber {
    cursor: u64,
}

impl View for Subscriber {
    type V = nat;

    closed spec fn view(&self) -> nat {
        self.cursor as nat
    }
}

/// The outcome of one receive: nothing new yet, the next event in order, or
/// a report that exactly `n` events were dropped because the subscriber fell
/// more than `capacity` events behind.
#[derive(Debug, PartialEq, Eq)]
pub enum Receipt {
    Empty,
    Event(Message),
    Lagged(u64),
}

/// The mathematical value of a receive outcome.
pub ghost enum ReceiptV {
    Empty,
    Event(MessageV),
    Lagged(nat),
}

impl View for Receipt {
    type V = ReceiptV;

    open spec fn view(&self) -> ReceiptV {
        match self {
            Receipt::Empty => ReceiptV::Empty,
            Receipt::Event(m) => ReceiptV::Event(m@),
            Receipt::Lagged(n) => ReceiptV::Lagged(*n as nat),
        }
    }
}

/// What one receive at cursor `c` yields: the next event if it is still
/// retained, a lag report if it is gone, nothing if the subscriber is caught
/// up.
pub open spec fn recv_receipt(h: HubV, c: nat) -> ReceiptV {
    if c >= h.published() {
        ReceiptV::Empty
    } else if c >= h.first_retained() {
        ReceiptV::Event(h.history[c as int])
    } else {
        ReceiptV::Lagged((h.first_retained() - c) as nat)
    }
}

/// Where the cursor stands after one receive at cursor `c`: one past the
/// event just read, or the start of the retained window after a lag report.
pub open spec fn recv_cursor(h: HubV, c: nat) -> nat {
    if c >= h.published() {
        c
    } else if c >= h.first_retained() {
        c + 1
    } else {
        h.first_retained()
    }
}

impl Hub {
    /// The hub's internal consistency: the buffer holds exactly the latest
    /// `capacity` events of the history (all of them, while fewer have been
    /// published), and the exec counters agree with the ghost history.
    pub closed spec fn wf(&self) -> bool {
        &&& 1 <= self.capacity
        &&& self.published == self.history@.len()
        &&& self.buffer@.len() == if self.history@.len() <= self.capacity as nat {
            self.history@.len()
        } else {
            self.capacity as nat
        }
        &&& forall|i: int|
            0 <= i < self.buffer@.len() ==> #[trigger] self.buffer@[i]@ == self.history@[self@.first_retained() + i]
    }

    pub fn new(capacity: usize) -> (h: Hub)
        requires
            1 <= capacity,
        ensures
            h.wf(),
            h@ == (HubV { capacity: capacity as nat, history: Seq::<MessageV>::empty() }),
    {
        Hub { capacity, buffer: Vec::new(), published: 0, history: Ghost(Seq::empty()) }
    }

    /// Publish an event: it is appended to the history, and the oldest
    /// retained event is discarded once more than `capacity` have been
    /// published.  Publishing never blocks and never fails; a subscriber
    /// that has not read the discarded event will be told so when it next
    /// receives.
    pub fn publish(&mut self, m: Message)
        requires
            old(self).wf(),
            old(self)@.published() < u64::MAX,
        ensures
            final(self).wf(),
            final(self)@.capacity == old(self)@.capacity,
            final(self)@.history == old(self)@.history.push(m@),
    {
        if self.buffer.len() == self.capacity {
            self.buffer.remove(0);
        }
        self.buffer.push(m);
        self.published = self.published + 1;
        proof {
            self.history@ = self.history@.push(m@);
        }
    }

    /// How many events this hub retains at most.
    pub fn capacity(&self) -> (c: usize)
        ensures
            c == self@.capacity,
    {
        self.capacity
    }

    /// How many events have ever been published to this hub.
    pub fn published(&self) -> (n: u64)
        requires
            self.wf(),
        ensures
            n == self@.published(),
    {
        self.published
    }

    /// A fresh subscriber sees only events published after this call; there
    /// is no historical replay.
    pub fn subscribe(&self) -> (s: Subscriber)
        requires
            self.wf(),
        ensures
            s@ == self@.published(),
    {
        Subscriber { cursor: self.published }
    }

    /// Receive the next event for `sub`, per [`recv_receipt`]: the next
    /// unread event in publish order while it is still retained; a
    /// `Lagged(n)` report — with `n` exactly the number of events skipped —
    /// once the subscriber has fallen more than `capacity` events behind,
    /// after which reading resumes at the first retained event with no
    /// duplicate and no further silent loss; `Empty` when caught up.
    pub fn recv(&self, sub: &mut Subscriber) -> (r: Receipt)
        requires
            self.wf(),
            old(sub)@ <= self@.published(),
        ensures
            r@ == recv_receipt(self@, old(sub)@),
            final(sub)@ == recv_cursor(self@, old(sub)@),
    {
        if sub.cursor == self.published {
            Receipt::Empty
        } else {
            let first: u64 = self.published - (self.buffer.len() as u64);
            if sub.cursor >= first {
                let idx: usize = (sub.cursor - first) as usize;
                let m = self.buffer[idx].clone();
                sub.cursor = sub.cursor + 1;
                Receipt::Event(m)
            } else {
                let n: u64 = first - sub.cursor;
                sub.cursor = first;
                Receipt::Lagged(n)
            }
        }
    }
}

impl View for Hub {
    type V = HubV;

    closed spec fn view(&self) -> HubV {
        HubV { capacity: self.capacity as nat, history: self.history@ }
    }
}

/// The outcomes of `k` consecutive receives starting at cursor `c`, with no
/// event published in between.
pub open spec fn drain(h: HubV, c: nat, k: nat) -> Seq<ReceiptV>
    decreases k,
{
    if k == 0 {
        Seq::empty()
    } else {
        seq![recv_receipt(h, c)] + drain(h, recv_cursor(h, c), (k - 1) as nat)
    }
}

/// Ordered delivery: a subscriber that has not fallen out of the retained
/// window reads back exactly the published events from its cursor onward, in
/// publish order, one per receive.  In particular every event a session
/// published itself comes back through its own subscription this way.
pub proof fn lemma_ordered_delivery(h: HubV, c: nat, k: nat)
    requires
        h.first_retained() <= c,
        c + k <= h.published(),
    ensures
        drain(h, c, k) == h.history.subrange(c as int, (c + k) as int).map_values(
            |m: MessageV| ReceiptV::Event(m),
        ),
    decreases k,
{
    if k == 0 {
        assert(drain(h, c, k) =~= h.history.subrange(c as int, (c + k) as int).map_values(
            |m: MessageV| ReceiptV::Event(m),
        ));
    } else {
        lemma_ordered_delivery(h, c + 1, (k - 1) as nat);
        assert(drain(h, c, k) =~= h.history.subrange(c as int, (c + k) as int).map_values(
            |m: MessageV| ReceiptV::Event(m),
        ));
    }
}

/// Self-echo: an event at position `p` that is still within the retained
/// window of a subscriber at cursor `c` is observed by that subscriber — as
/// the last of `p - c + 1` receives — exactly as it was published.
pub proof fn lemma_self_echo(h: HubV, c: nat, p: nat)
    requires
        h.first_retained() <= c <= p < h.published(),
    ensures
        drain(h, c, (p - c + 1) as nat)[(p - c) as int] == ReceiptV::Event(h.history[p as int]),
{
    lemma_ordered_delivery(h, c, (p - c + 1) as nat);
}

/// The lag policy: a subscriber whose cursor fell behind the retained window
/// is told, in one receipt, exactly how many events it will never see, and
/// its very next receive yields the first retained event — the next one
/// after the drop window, with no duplicate and no further silent loss.
pub proof fn lemma_lag_resume(h: HubV, c: nat)
    requires
        1 <= h.capacity,
        c < h.first_retained(),
    ensures
        recv_receipt(h, c) == ReceiptV::Lagged((h.first_retained() - c) as nat),
        recv_cursor(h, c) == h.first_retained(),
        recv_receipt(h, h.first_retained()) == ReceiptV::Event(
            h.history[h.first_retained() as int],
        ),
{
}

} // verus!
