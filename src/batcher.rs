//! Bounded batching of inbound messages.
//!
//! A [`Batcher`] collects the messages of one subscription stream and hands
//! them out in batches: a batch leaves when a message arrives at a full
//! buffer, or when the flush timer ticks over a non-empty buffer.
use vstd::prelude::*;

verus! {

/// Number of messages a batch holds unless another capacity is chosen.
pub const DEFAULT_BATCH_CAPACITY: usize = 64;

/// Interval of the flush timer, in milliseconds.
pub const FLUSH_INTERVAL_MS: u64 = 7;

/// One input of the batcher: an inbound message, or a tick of the flush timer.
pub enum BatchEvent<T> {
    Message(T),
    Tick,
}

/// Buffer state and emitted batch after one event, for a buffer of capacity `cap`.
pub open spec fn step<T>(cap: nat, buf: Seq<T>, ev: BatchEvent<T>) -> (Seq<T>, Option<Seq<T>>) {
    match ev {
        BatchEvent::Message(m) => if buf.len() < cap {
            (buf.push(m), None)
        } else {
            (seq![m], Some(buf))
        },
        BatchEvent::Tick => if buf.len() == 0 {
            (buf, None)
        } else {
            (Seq::empty(), Some(buf))
        },
    }
}

/// Buffer state after a run of events, and the batches emitted on the way, in order.
pub open spec fn run<T>(cap: nat, buf: Seq<T>, evs: Seq<BatchEvent<T>>) -> (Seq<T>, Seq<Seq<T>>)
    decreases evs.len(),
{
    if evs.len() == 0 {
        (buf, Seq::empty())
    } else {
        let (next, out) = step(cap, buf, evs[0]);
        let (last, rest) = run(cap, next, evs.drop_first());
        match out {
            Some(b) => (last, seq![b] + rest),
            None => (last, rest),
        }
    }
}

/// The messages carried by a run of events, in arrival order.
pub open spec fn messages<T>(evs: Seq<BatchEvent<T>>) -> Seq<T>
    decreases evs.len(),
{
    if evs.len() == 0 {
        Seq::empty()
    } else {
        match evs[0] {
            BatchEvent::Message(m) => seq![m] + messages(evs.drop_first()),
            BatchEvent::Tick => messages(evs.drop_first()),
        }
    }
}

/// Whether a run of events holds no timer tick.
pub open spec fn no_tick<T>(evs: Seq<BatchEvent<T>>) -> bool {
    forall|i: int| 0 <= i < evs.len() ==> evs[i] is Message
}

/// Every batch in `bs` holds at least one and at most `cap` messages.
pub open spec fn batches_bounded<T>(cap: nat, bs: Seq<Seq<T>>) -> bool {
    forall|i: int| 0 <= i < bs.len() ==> 0 < #[trigger] bs[i].len() <= cap
}

/// Everything a session's consumer receives: the batches of the run from an
/// empty buffer, then what is still buffered when the stream ends.
pub open spec fn delivered<T>(cap: nat, evs: Seq<BatchEvent<T>>) -> Seq<Seq<T>> {
    let (last, out) = run(cap, Seq::empty(), evs);
    if last.len() == 0 {
        out
    } else {
        out.push(last)
    }
}

/// The sequences held by an optional batch.
pub open spec fn batch_view<T>(b: Option<Vec<T>>) -> Option<Seq<T>> {
    match b {
        Some(v) => Some(v@),
        None => None,
    }
}

proof fn lemma_flatten_prepend<T>(x: Seq<T>, rest: Seq<Seq<T>>)
    ensures
        (seq![x] + rest).flatten() == x + rest.flatten(),
{
    let s = seq![x] + rest;
    assert(s.drop_first() =~= rest);
    assert(s[0] == x);
}

proof fn lemma_flatten_push<T>(bs: Seq<Seq<T>>, x: Seq<T>)
    ensures
        bs.push(x).flatten() == bs.flatten() + x,
    decreases bs.len(),
{
    if bs.len() == 0 {
        assert(bs.push(x).drop_first() =~= Seq::<Seq<T>>::empty());
        assert(bs.push(x).flatten() =~= x + Seq::<Seq<T>>::empty().flatten());
        assert(bs.flatten() + x =~= x);
    } else {
        lemma_flatten_push(bs.drop_first(), x);
        assert(bs.push(x).drop_first() =~= bs.drop_first().push(x));
        assert(bs[0] + (bs.drop_first().flatten() + x) =~= (bs[0] + bs.drop_first().flatten()) + x);
    }
}

/// Over any run of events, the batches emitted followed by what stays
/// buffered are exactly the buffer at the start followed by the messages of
/// the run, in order; every batch holds between one and `cap` messages, and
/// the buffer never exceeds `cap`.
pub proof fn lemma_run_keeps_order<T>(cap: nat, buf: Seq<T>, evs: Seq<BatchEvent<T>>)
    requires
        0 < cap,
        buf.len() <= cap,
    ensures
        run(cap, buf, evs).1.flatten() + run(cap, buf, evs).0 == buf + messages(evs),
        batches_bounded(cap, run(cap, buf, evs).1),
        run(cap, buf, evs).0.len() <= cap,
    decreases evs.len(),
{
    if evs.len() == 0 {
        assert(buf + messages(evs) =~= buf);
        assert(Seq::<Seq<T>>::empty().flatten() + buf =~= buf);
    } else {
        let (next, out) = step(cap, buf, evs[0]);
        let tail = evs.drop_first();
        lemma_run_keeps_order(cap, next, tail);
        let (last, rest) = run(cap, next, tail);
        assert(rest.flatten() + last == next + messages(tail));
        match evs[0] {
            BatchEvent::Message(m) => {
                assert(messages(evs) == seq![m] + messages(tail));
                if buf.len() < cap {
                    assert(buf.push(m) + messages(tail) =~= buf + (seq![m] + messages(tail)));
                } else {
                    lemma_flatten_prepend(buf, rest);
                    assert((buf + rest.flatten()) + last =~= buf + (rest.flatten() + last));
                    assert(seq![m] + messages(tail) =~= next + messages(tail));
                    assert forall|i: int| 0 <= i < (seq![buf] + rest).len() implies 0 < #[trigger] (
                    seq![buf] + rest)[i].len() <= cap by {
                        if i > 0 {
                            assert((seq![buf] + rest)[i] == rest[i - 1]);
                        }
                    }
                }
            },
            BatchEvent::Tick => {
                assert(messages(evs) == messages(tail));
                if buf.len() != 0 {
                    lemma_flatten_prepend(buf, rest);
                    assert((buf + rest.flatten()) + last =~= buf + (rest.flatten() + last));
                    assert(next + messages(tail) =~= messages(tail));
                    assert forall|i: int| 0 <= i < (seq![buf] + rest).len() implies 0 < #[trigger] (
                    seq![buf] + rest)[i].len() <= cap by {
                        if i > 0 {
                            assert((seq![buf] + rest)[i] == rest[i - 1]);
                        }
                    }
                }
            },
        }
    }
}

/// A session's consumer receives every message of the session exactly once,
/// in arrival order, in batches of between one and `cap` messages.
pub proof fn lemma_delivery_is_complete<T>(cap: nat, evs: Seq<BatchEvent<T>>)
    requires
        0 < cap,
    ensures
        delivered(cap, evs).flatten() == messages(evs),
        batches_bounded(cap, delivered(cap, evs)),
{
    lemma_run_keeps_order(cap, Seq::empty(), evs);
    let (last, out) = run(cap, Seq::empty(), evs);
    assert(Seq::<T>::empty() + messages(evs) =~= messages(evs));
    if last.len() == 0 {
        assert(out.flatten() + last =~= out.flatten());
    } else {
        lemma_flatten_push(out, last);
        assert forall|i: int| 0 <= i < out.push(last).len() implies 0 < #[trigger] out.push(
            last,
        )[i].len() <= cap by {
            if i < out.len() {
                assert(out.push(last)[i] == out[i]);
            }
        }
    }
}

/// Without a timer tick, and while the buffer does not fill up, no batch
/// leaves: every message stays buffered.
pub proof fn lemma_no_flush_without_tick_or_full<T>(cap: nat, buf: Seq<T>, evs: Seq<BatchEvent<T>>)
    requires
        no_tick(evs),
        buf.len() + evs.len() <= cap,
    ensures
        run(cap, buf, evs).1.len() == 0,
        run(cap, buf, evs).0 == buf + messages(evs),
    decreases evs.len(),
{
    if evs.len() == 0 {
        assert(buf + messages(evs) =~= buf);
    } else {
        let tail = evs.drop_first();
        assert(evs[0] is Message);
        let m = evs[0]->Message_0;
        assert forall|i: int| 0 <= i < tail.len() implies tail[i] is Message by {
            assert(tail[i] == evs[i + 1]);
        }
        lemma_no_flush_without_tick_or_full(cap, buf.push(m), tail);
        assert(buf.push(m) + messages(tail) =~= buf + (seq![m] + messages(tail)));
    }
}

/// The message buffer of one session.
pub struct Batcher<T> {
    buf: Vec<T>,
    capacity: usize,
}

impl<T> Batcher<T> {
    /// The messages buffered since the last flush, in arrival order.
    pub closed spec fn buffered(&self) -> Seq<T> {
        self.buf@
    }

    /// The most messages a batch holds.
    pub closed spec fn cap(&self) -> nat {
        self.capacity as nat
    }

    pub open spec fn wf(&self) -> bool {
        0 < self.cap() && self.buffered().len() <= self.cap()
    }

    /// An empty buffer of the default capacity.
    pub fn new() -> (r: Self)
        ensures
            r.wf(),
            r.buffered() == Seq::<T>::empty(),
            r.cap() == DEFAULT_BATCH_CAPACITY,
    {
        Batcher { buf: Vec::new(), capacity: DEFAULT_BATCH_CAPACITY }
    }

    /// An empty buffer of the given capacity; `None` for a capacity of zero.
    pub fn with_capacity(capacity: usize) -> (r: Option<Self>)
        ensures
            capacity == 0 <==> r is None,
            r matches Some(b) ==> b.wf() && b.buffered() == Seq::<T>::empty() && b.cap()
                == capacity,
    {
        if capacity == 0 {
            None
        } else {
            Some(Batcher { buf: Vec::new(), capacity })
        }
    }

    /// Takes one inbound message. At a full buffer the buffered messages
    /// leave as one batch and the new message starts the next one.
    pub fn on_message(&mut self, m: T) -> (flushed: Option<Vec<T>>)
        requires
            old(self).wf(),
        ensures
            final(self).wf(),
            final(self).cap() == old(self).cap(),
            (final(self).buffered(), batch_view(flushed)) == step(
                old(self).cap(),
                old(self).buffered(),
                BatchEvent::Message(m),
            ),
    {
        if self.buf.len() < self.capacity {
            self.buf.push(m);
            None
        } else {
            let mut batch = Vec::new();
            std::mem::swap(&mut batch, &mut self.buf);
            self.buf.push(m);
            assert(self.buf@ =~= seq![m]);
            Some(batch)
        }
    }

    /// Takes one tick of the flush timer: a non-empty buffer leaves as one batch.
    pub fn on_tick(&mut self) -> (flushed: Option<Vec<T>>)
        requires
            old(self).wf(),
        ensures
            final(self).wf(),
            final(self).cap() == old(self).cap(),
            (final(self).buffered(), batch_view(flushed)) == step(
                old(self).cap(),
                old(self).buffered(),
                BatchEvent::Tick,
            ),
    {
        if self.buf.len() == 0 {
            None
        } else {
            let mut batch = Vec::new();
            std::mem::swap(&mut batch, &mut self.buf);
            Some(batch)
        }
    }

    /// Takes one event, inbound message or timer tick.
    pub fn on_event(&mut self, ev: BatchEvent<T>) -> (flushed: Option<Vec<T>>)
        requires
            old(self).wf(),
        ensures
            final(self).wf(),
            final(self).cap() == old(self).cap(),
            (final(self).buffered(), batch_view(flushed)) == step(
                old(self).cap(),
                old(self).buffered(),
                ev,
            ),
    {
        match ev {
            BatchEvent::Message(m) => self.on_message(m),
            BatchEvent::Tick => self.on_tick(),
        }
    }

    /// Ends the stream: what is still buffered leaves as the last batch, if anything is.
    pub fn finish(self) -> (last: Option<Vec<T>>)
        ensures
            self.buffered().len() == 0 ==> last is None,
            self.buffered().len() > 0 ==> batch_view(last) == Some(self.buffered()),
    {
        if self.buf.len() == 0 {
            None
        } else {
            Some(self.buf)
        }
    }

    /// Number of buffered messages.
    pub fn len(&self) -> (r: usize)
        ensures
            r == self.buffered().len(),
    {
        self.buf.len()
    }

    /// Whether no message is buffered.
    pub fn is_empty(&self) -> (r: bool)
        ensures
            r == (self.buffered().len() == 0),
    {
        self.buf.len() == 0
    }

    /// The most messages a batch holds.
    pub fn capacity(&self) -> (r: usize)
        ensures
            r == self.cap(),
    {
        self.capacity
    }
}

} // verus!
