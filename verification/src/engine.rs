//! The adaptive stream engine: ingests lines into a bounded buffer, decides
//! when a batch must be flushed, adjusts the pacing delay from flush
//! outcomes, and enforces the hard line-count ceiling.
//!
//! The engine is a pure decision core. The surrounding driver reads input,
//! performs the sends and the sleeps, and reports each flush outcome back;
//! every decision — flush now, pause for how long, stop ingesting — is made
//! and verified here.

use vstd::prelude::*;

use crate::config::StreamConfig;
use crate::pacing::FlushOutcome;
use crate::pacing::INITIAL_DELAY_MS;
use crate::pacing::delay_in_bounds;
use crate::pacing::next_delay;
use crate::pacing::spec_delay_after_failure;
use crate::pacing::spec_delay_after_success;

verus! {

/// Default capacity of the line buffer: a flush is forced when this many
/// lines are pending.
pub const DEFAULT_BUFFER_SIZE: usize = 10;

/// Hard ceiling on ingested lines: once the count passes this, no further
/// input is read and the run proceeds to its final flush.
pub const MAX_LINE_COUNT: u64 = 10000;

/// After a successful flush, a pacing pause is inserted once every this
/// many ingested lines.
pub const RATE_LIMIT_INTERVAL: u64 = 30;

/// The views of a sequence of owned lines.
pub open spec fn line_views(lines: Seq<String>) -> Seq<Seq<char>> {
    lines.map_values(|l: String| l@)
}

/// The batching and flow-control engine for one run.
///
/// `delivered` and `ingested` are ghost histories: every line ever ingested,
/// and every line whose batch was fully sent and committed, each in order.
/// The well-formedness invariant ties them together: the committed lines
/// followed by the still-buffered lines are exactly the ingested lines, so a
/// driver that sends each committed batch in buffer order presents the peer
/// with the input order.
pub struct StreamProcessor {
    pub config: StreamConfig,
    /// Lines ingested so far; increases by one per input line, never resets.
    pub line_count: u64,
    /// Lines awaiting transmission, in input order.
    pub buffer: Vec<String>,
    /// Buffer capacity; reaching it forces a flush.
    pub buffer_size: usize,
    /// Current adaptive pacing delay in milliseconds.
    pub delay_ms: u64,
    /// Ghost history of all ingested lines, in order.
    pub ingested: Ghost<Seq<Seq<char>>>,
    /// Ghost history of lines committed as delivered, in order.
    pub delivered: Ghost<Seq<Seq<char>>>,
}

impl StreamProcessor {
    /// Well-formedness: the pacing delay is in bounds, the buffer respects
    /// its capacity, the line count respects the ceiling's check point, and
    /// the delivered lines followed by the buffered lines are exactly the
    /// ingested lines, in order.
    pub open spec fn wf(self) -> bool {
        &&& delay_in_bounds(self.delay_ms as int)
        &&& 1 <= self.buffer_size
        &&& self.buffer@.len() <= self.buffer_size
        &&& self.line_count <= MAX_LINE_COUNT + 1
        &&& self.ingested@.len() == self.line_count
        &&& self.delivered@ + line_views(self.buffer@) == self.ingested@
    }

    /// A fresh engine: nothing ingested, empty buffer of the default
    /// capacity, pacing delay at its initial value.
    pub fn new(config: StreamConfig) -> (r: Self)
        ensures
            r.wf(),
            r.config == config,
            r.line_count == 0,
            r.buffer@.len() == 0,
            r.buffer_size == DEFAULT_BUFFER_SIZE,
            r.delay_ms == INITIAL_DELAY_MS,
            r.ingested@ == Seq::<Seq<char>>::empty(),
            r.delivered@ == Seq::<Seq<char>>::empty(),
    {
        let r = StreamProcessor {
            config,
            line_count: 0,
            buffer: Vec::new(),
            buffer_size: DEFAULT_BUFFER_SIZE,
            delay_ms: INITIAL_DELAY_MS,
            ingested: Ghost(Seq::empty()),
            delivered: Ghost(Seq::empty()),
        };
        proof {
            assert(r.delivered@ + line_views(r.buffer@) =~= r.ingested@);
        }
        r
    }

    /// Ingest one input line: count it, append it to the buffer, and decide
    /// whether a flush is due — because the buffer reached its capacity or
    /// because at least the pacing delay has elapsed since the last flush.
    ///
    /// The caller must flush when told to before ingesting again, and must
    /// stop ingesting once [`Self::at_capacity`] holds; the preconditions
    /// record exactly that discipline. At the flush decision point the
    /// buffer never holds more than `buffer_size` lines.
    pub fn ingest_line(&mut self, line: String, elapsed_ms: u64) -> (flush_due: bool)
        requires
            old(self).wf(),
            old(self).buffer@.len() < old(self).buffer_size,
            old(self).line_count <= MAX_LINE_COUNT,
        ensures
            final(self).wf(),
            final(self).line_count == old(self).line_count + 1,
            final(self).buffer@ == old(self).buffer@.push(line),
            final(self).buffer@.len() <= final(self).buffer_size,
            final(self).ingested@ == old(self).ingested@.push(line@),
            final(self).delivered@ == old(self).delivered@,
            final(self).delay_ms == old(self).delay_ms,
            final(self).buffer_size == old(self).buffer_size,
            final(self).config == old(self).config,
            flush_due == (final(self).buffer@.len() >= final(self).buffer_size
                || elapsed_ms >= final(self).delay_ms),
    {
        self.line_count = self.line_count + 1;
        let ghost view = line@;
        self.buffer.push(line);
        proof {
            self.ingested@ = self.ingested@.push(view);
            assert(line_views(self.buffer@) =~= line_views(old(self).buffer@).push(view));
            assert(self.delivered@ + line_views(self.buffer@) =~= self.ingested@);
        }
        self.buffer.len() >= self.buffer_size || elapsed_ms >= self.delay_ms
    }

    /// The lines of the batch a flush would transmit, in input order.
    pub fn batch(&self) -> (r: &Vec<String>)
        ensures
            r@ == self.buffer@,
    {
        &self.buffer
    }

    /// Whether any lines are still buffered, i.e. whether the final flush
    /// has anything to send.
    pub fn has_buffered(&self) -> (r: bool)
        ensures
            r == (self.buffer@.len() > 0),
    {
        self.buffer.len() > 0
    }

    /// Whether the hard line ceiling has been passed, in which case no
    /// further input may be ingested.
    pub fn at_capacity(&self) -> (r: bool)
        ensures
            r == (self.line_count > MAX_LINE_COUNT),
    {
        self.line_count > MAX_LINE_COUNT
    }

    /// Record that every line of the current batch was sent, in order:
    /// commit the batch (the buffer is cleared, its lines join the delivered
    /// history), shrink the pacing delay, and decide whether the secondary
    /// rate limit asks for a pause — and if so, for how long.
    pub fn flush_succeeded(&mut self) -> (pause_ms: Option<u64>)
        requires
            old(self).wf(),
        ensures
            final(self).wf(),
            final(self).buffer@.len() == 0,
            final(self).delivered@ == old(self).delivered@ + line_views(old(self).buffer@),
            final(self).ingested@ == old(self).ingested@,
            final(self).line_count == old(self).line_count,
            final(self).buffer_size == old(self).buffer_size,
            final(self).config == old(self).config,
            final(self).delay_ms as int == spec_delay_after_success(old(self).delay_ms as int),
            pause_ms == if old(self).line_count % RATE_LIMIT_INTERVAL == 0 {
                Some(final(self).delay_ms)
            } else {
                None::<u64>
            },
    {
        proof {
            self.delivered@ = self.delivered@ + line_views(self.buffer@);
        }
        self.buffer.clear();
        self.delay_ms = next_delay(self.delay_ms, FlushOutcome::Success);
        proof {
            assert(self.delivered@ + line_views(self.buffer@) =~= self.ingested@);
        }
        if self.line_count % RATE_LIMIT_INTERVAL == 0 {
            Some(self.delay_ms)
        } else {
            None
        }
    }

    /// Record that a send in the current batch failed: the buffer is kept
    /// (the run aborts, nothing is retried), the pacing delay doubles, and
    /// the returned duration is the backoff the driver must sleep before
    /// surfacing the error.
    pub fn flush_failed(&mut self) -> (backoff_ms: u64)
        requires
            old(self).wf(),
        ensures
            final(self).wf(),
            final(self).buffer@ == old(self).buffer@,
            final(self).delivered@ == old(self).delivered@,
            final(self).ingested@ == old(self).ingested@,
            final(self).line_count == old(self).line_count,
            final(self).buffer_size == old(self).buffer_size,
            final(self).config == old(self).config,
            final(self).delay_ms as int == spec_delay_after_failure(old(self).delay_ms as int),
            backoff_ms == final(self).delay_ms,
    {
        self.delay_ms = next_delay(self.delay_ms, FlushOutcome::Failure);
        self.delay_ms
    }

    /// Commit the shutdown flush: every remaining buffered line was sent, in
    /// order. The buffer is cleared and its lines join the delivered
    /// history; unlike an in-loop flush, the pacing state is left alone.
    pub fn commit_final_flush(&mut self)
        requires
            old(self).wf(),
        ensures
            final(self).wf(),
            final(self).buffer@.len() == 0,
            final(self).delivered@ == old(self).delivered@ + line_views(old(self).buffer@),
            final(self).ingested@ == old(self).ingested@,
            final(self).line_count == old(self).line_count,
            final(self).buffer_size == old(self).buffer_size,
            final(self).config == old(self).config,
            final(self).delay_ms == old(self).delay_ms,
    {
        proof {
            self.delivered@ = self.delivered@ + line_views(self.buffer@);
        }
        self.buffer.clear();
        proof {
            assert(self.delivered@ + line_views(self.buffer@) =~= self.ingested@);
        }
    }

    /// Delivery preserves input order: at every reachable state the lines
    /// committed as delivered are exactly a prefix of the ingested lines,
    /// and the still-buffered lines are the rest, in order.
    pub proof fn lemma_delivery_order(self)
        requires
            self.wf(),
        ensures
            self.delivered@ == self.ingested@.subrange(0, self.delivered@.len() as int),
            line_views(self.buffer@) == self.ingested@.subrange(
                self.delivered@.len() as int,
                self.ingested@.len() as int,
            ),
    {
        assert(self.delivered@ =~= self.ingested@.subrange(0, self.delivered@.len() as int));
        assert(line_views(self.buffer@) =~= self.ingested@.subrange(
            self.delivered@.len() as int,
            self.ingested@.len() as int,
        ));
    }
}

/// The line count a run ends with when the driver reads one line per step
/// from `available` pending lines, starting from count `count`, and stops
/// reading as soon as the count passes the ceiling.
pub open spec fn spec_count_after_run(available: nat, count: nat) -> nat
    decreases available,
{
    if available == 0 || count > MAX_LINE_COUNT {
        count
    } else {
        spec_count_after_run((available - 1) as nat, count + 1)
    }
}

proof fn lemma_count_after_run(available: nat, count: nat)
    ensures
        spec_count_after_run(available, count) == if count > MAX_LINE_COUNT {
            count
        } else if count + available <= MAX_LINE_COUNT + 1 {
            count + available
        } else {
            (MAX_LINE_COUNT + 1) as nat
        },
    decreases available,
{
    if available > 0 && count <= MAX_LINE_COUNT {
        lemma_count_after_run((available - 1) as nat, count + 1);
    }
}

/// The line count after a run equals the number of lines available, capped
/// at one past the ceiling: the line that triggers the ceiling check is
/// still counted, and nothing beyond it is ever read.
pub proof fn lemma_line_count_capped(available: nat)
    ensures
        spec_count_after_run(available, 0) == if available <= MAX_LINE_COUNT + 1 {
            available
        } else {
            (MAX_LINE_COUNT + 1) as nat
        },
{
    lemma_count_after_run(available, 0);
}

} // verus!
