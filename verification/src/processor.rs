//! The processor: a counter of processed items and the reports it issues.

use crate::clock::{is_utc_timestamp, utc_now_rfc3339};
use crate::record::{
    byte_len, item_message, item_message_text, size_in_bytes, ProcessData, ProcessResult,
};
use vstd::prelude::*;

verus! {

/// Processes items one at a time and counts them.
#[derive(Debug)]
pub struct NodeRunnerProcessor {
    /// Whether to print debug information
    pub verbose: bool,
    /// Number of items processed
    pub processed_count: usize,
}

/// A snapshot of a processor's statistics.
#[derive(Debug, Clone, Copy, PartialEq, Eq, Structural)]
pub struct ProcessorStats {
    /// Number of items processed so far.
    pub processed_count: usize,
    /// Whether the processor prints debug information.
    pub verbose: bool,
}

/// [`NodeRunnerProcessor`] as mathematical values.
pub struct ProcessorView {
    pub verbose: bool,
    pub processed_count: nat,
}

impl View for NodeRunnerProcessor {
    type V = ProcessorView;

    open spec fn view(&self) -> ProcessorView {
        ProcessorView { verbose: self.verbose, processed_count: self.processed_count as nat }
    }
}

impl ProcessorView {
    /// A processor that has processed nothing yet.
    pub open spec fn fresh(verbose: bool) -> ProcessorView {
        ProcessorView { verbose, processed_count: 0 }
    }

    /// The processor after it has processed one more item.
    pub open spec fn advance(self) -> ProcessorView {
        ProcessorView { verbose: self.verbose, processed_count: self.processed_count + 1 }
    }

    /// The processor after it has processed `items` more items.
    pub open spec fn advance_by(self, items: nat) -> ProcessorView
        decreases items,
    {
        if items == 0 {
            self
        } else {
            self.advance_by((items - 1) as nat).advance()
        }
    }
}

impl NodeRunnerProcessor {
    /// Creates a new processor with the specified verbosity, which has
    /// processed nothing yet.
    pub fn new(verbose: bool) -> (processor: Self)
        ensures
            processor@ == ProcessorView::fresh(verbose),
    {
        NodeRunnerProcessor { verbose, processed_count: 0 }
    }

    /// Processes `data` as the next item, recording `processed_at` as the
    /// moment of processing. The moment is taken as it is given.
    ///
    /// The counter must not have reached the largest number it can hold.
    pub fn process_at(&mut self, data: &str, processed_at: String) -> (result: ProcessResult)
        requires
            old(self).processed_count < usize::MAX,
        ensures
            final(self)@ == old(self)@.advance(),
            result@.success,
            result@.message == item_message(final(self)@.processed_count),
            result@.data matches Some(facts) && facts.length == byte_len(data@)
                && facts.processed_at == processed_at@
                && facts.item_number == final(self)@.processed_count,
    {
        self.processed_count = self.processed_count + 1;
        ProcessResult {
            success: true,
            message: item_message_text(self.processed_count),
            data: Some(
                ProcessData {
                    length: size_in_bytes(data),
                    processed_at,
                    item_number: self.processed_count,
                },
            ),
        }
    }

    /// Processes `data` as the next item, at the present moment.
    ///
    /// Any text is accepted and the outcome always reports success. The
    /// moment is read from the system clock, so two calls on the same text
    /// differ in it; whichever moment was read, it is written as a timestamp
    /// in UTC, and everything else in the outcome is determined by the
    /// counter and the text. The counter must not have reached the largest
    /// number it can hold.
    pub fn process(&mut self, data: &str) -> (result: ProcessResult)
        requires
            old(self).processed_count < usize::MAX,
        ensures
            final(self)@ == old(self)@.advance(),
            result@.success,
            result@.message == item_message(final(self)@.processed_count),
            result@.data matches Some(facts) && facts.length == byte_len(data@)
                && is_utc_timestamp(facts.processed_at)
                && facts.item_number == final(self)@.processed_count,
    {
        let processed_at = utc_now_rfc3339();
        self.process_at(data, processed_at)
    }

    /// Returns statistics about the processor, which it leaves as it is.
    pub fn get_stats(&self) -> (stats: ProcessorStats)
        ensures
            stats.processed_count == self.processed_count,
            stats.verbose == self.verbose,
    {
        ProcessorStats { processed_count: self.processed_count, verbose: self.verbose }
    }
}

/// Processing never loses count: after `items` more items the counter has
/// grown by exactly `items`, and the verbosity is what it was.
pub proof fn lemma_count_grows_by_calls(start: ProcessorView, items: nat)
    ensures
        start.advance_by(items).processed_count == start.processed_count + items,
        start.advance_by(items).verbose == start.verbose,
    decreases items,
{
    if items > 0 {
        lemma_count_grows_by_calls(start, (items - 1) as nat);
    }
}

/// After its `k`-th item a new processor has counted exactly `k`.
pub proof fn lemma_count_after_calls(verbose: bool, k: nat)
    ensures
        ProcessorView::fresh(verbose).advance_by(k).processed_count == k,
{
    lemma_count_grows_by_calls(ProcessorView::fresh(verbose), k);
}

} // verus!
