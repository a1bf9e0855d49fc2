//! One run: a new processor handles a single input.

use crate::clock::is_utc_timestamp;
use crate::processor::{NodeRunnerProcessor, ProcessorView};
use crate::record::{byte_len, item_message, ProcessResult};
use vstd::prelude::*;

verus! {

/// The text that a run works on: the input it was given, or the empty text
/// where it was given none.
pub open spec fn input_text(input: Option<&str>) -> Seq<char> {
    match input {
        Some(text) => text@,
        None => Seq::empty(),
    }
}

/// Runs once: a new processor with the given verbosity processes the input,
/// or the empty text where there is none, as its first and only item. The
/// processor is handed back together with the outcome.
///
/// The moment of processing is read from the system clock; whichever moment
/// was read, it is written as a timestamp in UTC, and the rest of the
/// outcome is that of item number 1.
pub fn run_once(verbose: bool, input: Option<&str>) -> (done: (NodeRunnerProcessor, ProcessResult))
    ensures
        done.0@ == ProcessorView::fresh(verbose).advance(),
        done.1@.success,
        done.1@.message == item_message(1),
        done.1@.data matches Some(facts) && facts.length == byte_len(input_text(input))
            && is_utc_timestamp(facts.processed_at) && facts.item_number == 1,
{
    let mut processor = NodeRunnerProcessor::new(verbose);
    let result = match input {
        Some(text) => processor.process(text),
        None => {
            proof {
                reveal_strlit("");
                assert(""@ =~= Seq::<char>::empty());
            }
            processor.process("")
        },
    };
    (processor, result)
}

} // verus!
