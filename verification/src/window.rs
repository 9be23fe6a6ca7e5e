//! The window accumulator: buffers the bytes of the source as they arrive
//! and hands them on as one window whenever the target interval has passed.

use vstd::prelude::*;

verus! {

/// Ticks of a monotonic clock that passed from `last` to `now`; zero when
/// `now` is not after `last`.
pub open spec fn elapsed(last: u64, now: u64) -> nat {
    if now >= last {
        (now - last) as nat
    } else {
        0
    }
}

/// Model of a [`WindowAccumulator`].
pub struct AccumulatorModel {
    /// The bytes that arrived since the last flush, in arrival order.
    pub buffer: Seq<u8>,
    /// The clock reading at the last flush, or at creation before the first.
    pub last_flush: u64,
    /// The time that has to pass between two flushes.
    pub target_interval: u64,
}

/// One arrival: a chunk of bytes and the clock reading when it came.
pub struct Arrival {
    pub chunk: Seq<u8>,
    pub now: u64,
}

/// One flush: the clock reading when it happened and the window it emitted.
pub struct Flushed {
    pub at: u64,
    pub window: Seq<u8>,
}

impl AccumulatorModel {
    /// Whether an arrival at `now` triggers a flush.
    pub open spec fn due(self, now: u64) -> bool {
        elapsed(self.last_flush, now) >= self.target_interval
    }

    /// The accumulator after an arrival: the chunk joins the buffer, and if
    /// a flush is due the buffer is emptied and the clock reading kept.
    pub open spec fn pushed(self, chunk: Seq<u8>, now: u64) -> AccumulatorModel {
        if self.due(now) {
            AccumulatorModel { buffer: Seq::empty(), last_flush: now, ..self }
        } else {
            AccumulatorModel { buffer: self.buffer + chunk, ..self }
        }
    }

    /// The window that an arrival emits: everything buffered, the new chunk
    /// included, if a flush is due.
    pub open spec fn emitted(self, chunk: Seq<u8>, now: u64) -> Option<Seq<u8>> {
        if self.due(now) {
            Some(self.buffer + chunk)
        } else {
            None
        }
    }

    /// The accumulator after a sequence of arrivals.
    pub open spec fn after(self, arrivals: Seq<Arrival>) -> AccumulatorModel
        decreases arrivals.len(),
    {
        if arrivals.len() == 0 {
            self
        } else {
            self.pushed(arrivals[0].chunk, arrivals[0].now).after(arrivals.skip(1))
        }
    }

    /// The flushes that a sequence of arrivals causes, in order.
    pub open spec fn flushes(self, arrivals: Seq<Arrival>) -> Seq<Flushed>
        decreases arrivals.len(),
    {
        if arrivals.len() == 0 {
            Seq::empty()
        } else {
            let first = arrivals[0];
            let rest = self.pushed(first.chunk, first.now).flushes(arrivals.skip(1));
            match self.emitted(first.chunk, first.now) {
                Some(window) => seq![Flushed { at: first.now, window }] + rest,
                None => rest,
            }
        }
    }
}

/// The bytes of a sequence of arrivals, joined in arrival order.
pub open spec fn arrived_bytes(arrivals: Seq<Arrival>) -> Seq<u8>
    decreases arrivals.len(),
{
    if arrivals.len() == 0 {
        Seq::empty()
    } else {
        arrivals[0].chunk + arrived_bytes(arrivals.skip(1))
    }
}

/// The bytes of a sequence of flushes, joined in order.
pub open spec fn flushed_bytes(flushes: Seq<Flushed>) -> Seq<u8>
    decreases flushes.len(),
{
    if flushes.len() == 0 {
        Seq::empty()
    } else {
        flushes[0].window + flushed_bytes(flushes.skip(1))
    }
}

/// The clock reading that flush `i` is measured from: the flush before it,
/// or `start` for the first.
pub open spec fn previous_flush(start: u64, flushes: Seq<Flushed>, i: int) -> u64 {
    if i == 0 {
        start
    } else {
        flushes[i - 1].at
    }
}

/// Buffers the bytes that arrive from the source and emits them as windows.
pub struct WindowAccumulator {
    raw_buffer: Vec<u8>,
    last_flush: u64,
    target_interval: u64,
}

impl View for WindowAccumulator {
    type V = AccumulatorModel;

    closed spec fn view(&self) -> AccumulatorModel {
        AccumulatorModel {
            buffer: self.raw_buffer@,
            last_flush: self.last_flush,
            target_interval: self.target_interval,
        }
    }
}

impl WindowAccumulator {
    /// An empty accumulator whose first interval starts at `now`.
    pub fn new(now: u64, target_interval: u64) -> (accumulator: Self)
        ensures
            accumulator@ == (AccumulatorModel {
                buffer: Seq::empty(),
                last_flush: now,
                target_interval,
            }),
    {
        WindowAccumulator { raw_buffer: Vec::new(), last_flush: now, target_interval }
    }

    /// The number of bytes that wait for the next flush.
    pub fn buffered(&self) -> (len: usize)
        ensures
            len == self@.buffer.len(),
    {
        self.raw_buffer.len()
    }

    /// The clock reading at the last flush.
    pub fn last_flush(&self) -> (at: u64)
        ensures
            at == self@.last_flush,
    {
        self.last_flush
    }

    /// The time that has to pass between two flushes.
    pub fn target_interval(&self) -> (interval: u64)
        ensures
            interval == self@.target_interval,
    {
        self.target_interval
    }

    /// Whether bytes that arrive at `now` would be flushed at once.
    pub fn is_due(&self, now: u64) -> (due: bool)
        ensures
            due == self@.due(now),
    {
        let passed: u64 = if now >= self.last_flush {
            now - self.last_flush
        } else {
            0
        };
        passed >= self.target_interval
    }

    /// Takes a chunk that arrived at `now`. If the target interval has
    /// passed since the last flush, everything buffered is returned as one
    /// window, the chunk at its end, and the next interval starts at `now`.
    /// Otherwise the chunk is kept and nothing is returned.
    pub fn push(&mut self, chunk: &[u8], now: u64) -> (window: Option<Vec<u8>>)
        ensures
            final(self)@ == old(self)@.pushed(chunk@, now),
            match window {
                Some(bytes) => old(self)@.emitted(chunk@, now) == Some(bytes@),
                None => old(self)@.emitted(chunk@, now) is None,
            },
    {
        self.raw_buffer.extend_from_slice(chunk);
        assert(self.raw_buffer@ =~= old(self)@.buffer + chunk@);
        if self.is_due(now) {
            let mut window: Vec<u8> = Vec::new();
            std::mem::swap(&mut window, &mut self.raw_buffer);
            self.last_flush = now;
            Some(window)
        } else {
            None
        }
    }

    /// Ends the stream: whatever is still buffered is returned as a last
    /// window, however little time has passed; nothing if nothing is.
    pub fn finish(&mut self) -> (window: Option<Vec<u8>>)
        ensures
            final(self)@ == (AccumulatorModel { buffer: Seq::empty(), ..old(self)@ }),
            match window {
                Some(bytes) => bytes@ == old(self)@.buffer && bytes@.len() > 0,
                None => old(self)@.buffer.len() == 0,
            },
    {
        if self.raw_buffer.len() == 0 {
            assert(self.raw_buffer@ =~= Seq::empty());
            None
        } else {
            let mut window: Vec<u8> = Vec::new();
            std::mem::swap(&mut window, &mut self.raw_buffer);
            Some(window)
        }
    }
}

/// No window is flushed before the target interval has passed since the
/// flush before it, or since the start for the first.
pub proof fn lemma_flush_spacing(start: AccumulatorModel, arrivals: Seq<Arrival>)
    ensures
        forall|i: int|
            0 <= i < start.flushes(arrivals).len() ==> elapsed(
                previous_flush(start.last_flush, start.flushes(arrivals), i),
                (#[trigger] start.flushes(arrivals)[i]).at,
            ) >= start.target_interval,
        start.after(arrivals).target_interval == start.target_interval,
    decreases arrivals.len(),
{
    if arrivals.len() > 0 {
        let first = arrivals[0];
        let next = start.pushed(first.chunk, first.now);
        let rest = next.flushes(arrivals.skip(1));
        let all = start.flushes(arrivals);
        lemma_flush_spacing(next, arrivals.skip(1));
        if start.due(first.now) {
            assert(all =~= seq![Flushed { at: first.now, window: start.buffer + first.chunk }]
                + rest);
            assert forall|i: int| 0 <= i < all.len() implies elapsed(
                previous_flush(start.last_flush, all, i),
                (#[trigger] all[i]).at,
            ) >= start.target_interval by {
                if i > 0 {
                    assert(all[i] == rest[i - 1]);
                    assert(previous_flush(start.last_flush, all, i) == previous_flush(
                        next.last_flush,
                        rest,
                        i - 1,
                    ));
                }
            }
        } else {
            assert(all == rest);
        }
    }
}

/// Nothing is lost and nothing reordered: the flushed windows, joined in
/// order and followed by what is still buffered, are the bytes buffered at
/// the start followed by the chunks in arrival order.
pub proof fn lemma_windows_contiguous(start: AccumulatorModel, arrivals: Seq<Arrival>)
    ensures
        flushed_bytes(start.flushes(arrivals)) + start.after(arrivals).buffer == start.buffer
            + arrived_bytes(arrivals),
    decreases arrivals.len(),
{
    if arrivals.len() == 0 {
        assert(flushed_bytes(start.flushes(arrivals)) + start.buffer =~= start.buffer
            + arrived_bytes(arrivals));
    } else {
        let first = arrivals[0];
        let next = start.pushed(first.chunk, first.now);
        let rest = next.flushes(arrivals.skip(1));
        let all = start.flushes(arrivals);
        lemma_windows_contiguous(next, arrivals.skip(1));
        let tail = arrived_bytes(arrivals.skip(1));
        if start.due(first.now) {
            let window = start.buffer + first.chunk;
            assert(all =~= seq![Flushed { at: first.now, window }] + rest);
            assert(all.skip(1) =~= rest);
            assert(flushed_bytes(all) == window + flushed_bytes(rest));
            assert(flushed_bytes(rest) + start.after(arrivals).buffer == Seq::<u8>::empty()
                + tail);
            assert((window + flushed_bytes(rest)) + start.after(arrivals).buffer =~= start.buffer
                + (first.chunk + tail));
        } else {
            assert(all == rest);
            assert(flushed_bytes(rest) + start.after(arrivals).buffer == (start.buffer
                + first.chunk) + tail);
            assert((start.buffer + first.chunk) + tail =~= start.buffer + (first.chunk + tail));
        }
    }
}

} // verus!
