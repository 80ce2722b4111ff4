//! The counting processor and the records it hands out.

use vstd::prelude::*;
use vstd::utf8::encode_utf8;
use crate::clock::{current_timestamp, is_utc_timestamp};
use crate::decimal::{decimal, decimal_string};
use crate::error::Error;

verus! {

/// What one processing event recorded about its input.
#[derive(Debug)]
pub struct ProcessData {
    /// Length of the input in bytes.
    pub length: usize,
    /// When the input was processed.
    pub processed_at: String,
    /// Position of the event in the processor's history, counted from one.
    pub item_number: usize,
}

/// The outcome of one processing event.
#[derive(Debug)]
pub struct ProcessResult {
    pub success: bool,
    pub message: String,
    pub data: Option<ProcessData>,
}

/// A snapshot of a processor's state.
#[derive(Debug, Clone, Copy, PartialEq, Eq, Structural)]
pub struct Stats {
    pub processed_count: usize,
    pub verbose: bool,
}

/// Mathematical content of a [`ProcessData`].
pub ghost struct ProcessDataView {
    pub length: nat,
    pub processed_at: Seq<char>,
    pub item_number: nat,
}

/// Mathematical content of a [`ProcessResult`].
pub ghost struct ProcessResultView {
    pub success: bool,
    pub message: Seq<char>,
    pub data: Option<ProcessDataView>,
}

/// Mathematical content of a [`BackupCopyProcessor`]: the counter is a
/// natural number, free of any machine width.
pub ghost struct ProcessorState {
    pub verbose: bool,
    pub processed_count: nat,
}

impl View for ProcessData {
    type V = ProcessDataView;

    open spec fn view(&self) -> ProcessDataView {
        ProcessDataView {
            length: self.length as nat,
            processed_at: self.processed_at@,
            item_number: self.item_number as nat,
        }
    }
}

impl View for ProcessResult {
    type V = ProcessResultView;

    open spec fn view(&self) -> ProcessResultView {
        ProcessResultView {
            success: self.success,
            message: self.message@,
            data: match self.data {
                Some(data) => Some(data@),
                None => None,
            },
        }
    }
}

/// The message of the event numbered `item_number`.
pub open spec fn success_message(item_number: nat) -> Seq<char> {
    "Successfully processed item #"@ + decimal(item_number)
}

/// The record of the event numbered `item_number`, on the input `text`,
/// at the time written in `processed_at`.
pub open spec fn event_record(
    item_number: nat,
    text: Seq<char>,
    processed_at: Seq<char>,
) -> ProcessResultView {
    ProcessResultView {
        success: true,
        message: success_message(item_number),
        data: Some(
            ProcessDataView {
                length: encode_utf8(text).len(),
                processed_at,
                item_number,
            },
        ),
    }
}

impl ProcessorState {
    /// The state of a processor that has processed nothing yet.
    pub open spec fn initial(verbose: bool) -> ProcessorState {
        ProcessorState { verbose, processed_count: 0 }
    }

    /// The state after one more processing event.
    pub open spec fn advanced(self) -> ProcessorState {
        ProcessorState { verbose: self.verbose, processed_count: self.processed_count + 1 }
    }

    /// The state after `n` more processing events.
    pub open spec fn advanced_by(self, n: nat) -> ProcessorState
        decreases n,
    {
        if n == 0 {
            self
        } else {
            self.advanced_by((n - 1) as nat).advanced()
        }
    }

    /// What the next event from this state returns.
    pub open spec fn next_record(
        self,
        text: Seq<char>,
        processed_at: Seq<char>,
    ) -> ProcessResultView {
        event_record(self.advanced().processed_count, text, processed_at)
    }
}

impl Stats {
    /// Whether the snapshot shows exactly what `state` holds.
    pub open spec fn describes(self, state: ProcessorState) -> bool {
        &&& self.processed_count as nat == state.processed_count
        &&& self.verbose == state.verbose
    }
}

/// The length of `text` in bytes, as UTF-8 lays it out.
fn byte_length(text: &str) -> (length: usize)
    ensures
        length as nat == encode_utf8(text@).len(),
{
    broadcast use vstd::slice::axiom_spec_len;

    text.as_bytes().len()
}

/// Numbers the texts it is handed and describes each of them.
#[derive(Debug)]
pub struct BackupCopyProcessor {
    verbose: bool,
    processed_count: usize,
}

impl View for BackupCopyProcessor {
    type V = ProcessorState;

    closed spec fn view(&self) -> ProcessorState {
        ProcessorState { verbose: self.verbose, processed_count: self.processed_count as nat }
    }
}

impl BackupCopyProcessor {
    /// A processor that has processed nothing yet.
    pub fn new(verbose: bool) -> (processor: Self)
        ensures
            processor@ == ProcessorState::initial(verbose),
    {
        Self { verbose, processed_count: 0 }
    }

    /// Whether the processor was asked to report on its work.
    pub fn verbose(&self) -> (verbose: bool)
        ensures
            verbose == self@.verbose,
    {
        self.verbose
    }

    /// How many texts the processor has processed.
    pub fn processed_count(&self) -> (count: usize)
        ensures
            count as nat == self@.processed_count,
    {
        self.processed_count
    }

    /// Processes `data` as of the time written in `processed_at`.
    ///
    /// The counter goes up by one, and the record carries the new count as
    /// its item number, the byte length of `data`, and `processed_at` as it
    /// was handed in. The call never fails.
    pub fn process_at(&mut self, data: &str, processed_at: String) -> (result: Result<
        ProcessResult,
        Error,
    >)
        requires
            old(self)@.processed_count < usize::MAX,
        ensures
            final(self)@ == old(self)@.advanced(),
            result is Ok,
            result->Ok_0@ == old(self)@.next_record(data@, processed_at@),
    {
        self.processed_count = self.processed_count + 1;
        let message = "Successfully processed item #".to_owned().concat(
            decimal_string(self.processed_count).as_str(),
        );
        let record = ProcessResult {
            success: true,
            message,
            data: Some(
                ProcessData {
                    length: byte_length(data),
                    processed_at,
                    item_number: self.processed_count,
                },
            ),
        };
        Ok(record)
    }

    /// Processes `data` as of now, by the system clock.
    ///
    /// Everything in the record but the timestamp is fixed by the state and
    /// the input; the timestamp is the clock's, taken in UTC.
    pub fn process(&mut self, data: &str) -> (result: Result<ProcessResult, Error>)
        requires
            old(self)@.processed_count < usize::MAX,
        ensures
            final(self)@ == old(self)@.advanced(),
            result is Ok,
            result->Ok_0.data is Some,
            is_utc_timestamp(result->Ok_0.data->Some_0.processed_at@),
            result->Ok_0@ == old(self)@.next_record(
                data@,
                result->Ok_0.data->Some_0.processed_at@,
            ),
    {
        let processed_at = current_timestamp();
        self.process_at(data, processed_at)
    }

    /// The processor's state as a snapshot. The processor is left as it is.
    pub fn get_stats(&self) -> (stats: Stats)
        ensures
            stats.describes(self@),
    {
        Stats { processed_count: self.processed_count, verbose: self.verbose }
    }
}

/// Counting is exact: `n` events move the counter up by `n` and leave the
/// verbosity as it was.
pub proof fn lemma_advanced_by_counts(state: ProcessorState, n: nat)
    ensures
        state.advanced_by(n).processed_count == state.processed_count + n,
        state.advanced_by(n).verbose == state.verbose,
    decreases n,
{
    if n > 0 {
        lemma_advanced_by_counts(state, (n - 1) as nat);
    }
}

/// A processor that starts fresh and processes `n` texts has counted `n`,
/// and the `n`-th of them was reported under the item number `n`, whatever
/// the texts and the times were.
pub proof fn lemma_nth_event_is_numbered_n(
    verbose: bool,
    n: nat,
    text: Seq<char>,
    processed_at: Seq<char>,
)
    ensures
        ProcessorState::initial(verbose).advanced_by(n).processed_count == n,
        n >= 1 ==> ProcessorState::initial(verbose).advanced_by((n - 1) as nat).next_record(
            text,
            processed_at,
        ).data == Some(
            ProcessDataView { length: encode_utf8(text).len(), processed_at, item_number: n },
        ),
{
    lemma_advanced_by_counts(ProcessorState::initial(verbose), n);
    if n >= 1 {
        lemma_advanced_by_counts(ProcessorState::initial(verbose), (n - 1) as nat);
    }
}

/// No two events in the history of one processor share an item number:
/// of two events that follow any state, one after `i` others and one after
/// `j` others with `i < j`, the later reports the larger number.
pub proof fn lemma_item_numbers_are_distinct(
    state: ProcessorState,
    i: nat,
    j: nat,
    first_text: Seq<char>,
    first_at: Seq<char>,
    second_text: Seq<char>,
    second_at: Seq<char>,
)
    requires
        i < j,
    ensures
        state.advanced_by(i).next_record(first_text, first_at).data->Some_0.item_number
            < state.advanced_by(j).next_record(second_text, second_at).data->Some_0.item_number,
{
    lemma_advanced_by_counts(state, i);
    lemma_advanced_by_counts(state, j);
}

/// Two snapshots of the same state are the same snapshot.
pub proof fn lemma_stats_are_repeatable(state: ProcessorState, first: Stats, second: Stats)
    requires
        first.describes(state),
        second.describes(state),
    ensures
        first == second,
{
}

} // verus!
