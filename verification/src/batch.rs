//! Running a batch: one outcome per submitted tool, in input order.
//!
//! The tools of a batch are handled concurrently by the caller, so their
//! outcomes come back in any order. The orchestrator keeps one slot per
//! submitted tool and files every outcome under the position at which its
//! tool was submitted. A slot is written once. Each outcome that is filed
//! advances the progress by one, whether the install succeeded or not, so a
//! failing tool holds up neither its neighbours nor the batch. When every
//! slot is filled the batch can be finished; the report then lists the
//! outcomes in the order of submission.

use crate::outcome::{BatchReport, InstallOutcome, OutcomeView};
use crate::progress::{FinishedProgress, ProgressTracker, ProgressView};
use crate::tools::ToolNames;
use vstd::prelude::*;

verus! {

/// What can go wrong when outcomes are filed or a batch is finished.
#[derive(Copy, Clone, Debug, PartialEq, Eq, Structural)]
pub enum BatchError {
    /// The position does not belong to the batch.
    OutOfRange,
    /// The position has its outcome already.
    AlreadyRecorded,
    /// Some tool of the batch has no outcome yet.
    Incomplete,
}

/// The outcome of the tool submitted at position `index`.
#[derive(Debug, PartialEq, Eq)]
pub struct Completion {
    pub index: usize,
    pub outcome: InstallOutcome,
}

/// Mathematical model of a [`Completion`].
pub struct CompletionView {
    pub index: int,
    pub outcome: OutcomeView,
}

impl View for Completion {
    type V = CompletionView;

    open spec fn view(&self) -> CompletionView {
        CompletionView { index: self.index as int, outcome: self.outcome@ }
    }
}

impl DeepView for Completion {
    type V = CompletionView;

    open spec fn deep_view(&self) -> CompletionView {
        self@
    }
}

/// Mathematical model of a running batch: the submitted tools and, for
/// each of them, its outcome once it is known.
pub struct BatchView {
    pub tools: ToolNames,
    pub slots: Seq<Option<OutcomeView>>,
}

/// The number of slots that hold an outcome.
pub open spec fn filled(slots: Seq<Option<OutcomeView>>) -> nat
    decreases slots.len(),
{
    if slots.len() == 0 {
        0
    } else {
        filled(slots.drop_last()) + if slots.last() is Some {
            1nat
        } else {
            0nat
        }
    }
}

/// Whether every slot holds an outcome.
pub open spec fn all_filled(slots: Seq<Option<OutcomeView>>) -> bool {
    forall|i: int| 0 <= i < slots.len() ==> (#[trigger] slots[i]) is Some
}

/// The outcomes in the slots, in the order of the slots.
pub open spec fn slot_outcomes(slots: Seq<Option<OutcomeView>>) -> Seq<OutcomeView> {
    Seq::new(slots.len(), |i: int| slots[i]->0)
}

/// A batch of `tools` of which none has an outcome yet.
pub open spec fn fresh_batch(tools: ToolNames) -> BatchView {
    BatchView { tools, slots: Seq::new(tools.len(), |i: int| None::<OutcomeView>) }
}

/// The progress of a batch: as many units as tools, as many of them done
/// as slots are filled.
pub open spec fn batch_progress(batch: BatchView) -> ProgressView {
    ProgressView { total: batch.tools.len(), completed: filled(batch.slots) }
}

/// Why an outcome cannot be filed under `index`, if it cannot.
pub open spec fn record_fault(batch: BatchView, index: int) -> Option<BatchError> {
    if !(0 <= index < batch.slots.len()) {
        Some(BatchError::OutOfRange)
    } else if batch.slots[index] is Some {
        Some(BatchError::AlreadyRecorded)
    } else {
        None
    }
}

/// The batch after `outcome` was filed under `index`.
pub open spec fn recorded(batch: BatchView, index: int, outcome: OutcomeView) -> BatchView {
    BatchView { slots: batch.slots.update(index, Some(outcome)), ..batch }
}

/// The batch after the completions were filed one after the other, or the
/// fault of the first one that could not be filed.
pub open spec fn replay(batch: BatchView, completions: Seq<CompletionView>) -> Result<
    BatchView,
    BatchError,
>
    decreases completions.len(),
{
    if completions.len() == 0 {
        Ok(batch)
    } else {
        match record_fault(batch, completions[0].index) {
            Some(fault) => Err(fault),
            None => replay(
                recorded(batch, completions[0].index, completions[0].outcome),
                completions.drop_first(),
            ),
        }
    }
}

/// What a batch of `tools` yields when the completions come in in the
/// given order: the outcomes by position if every completion could be filed
/// and no tool is left without one.
pub open spec fn batch_result(tools: ToolNames, completions: Seq<CompletionView>) -> Result<
    Seq<OutcomeView>,
    BatchError,
> {
    match replay(fresh_batch(tools), completions) {
        Err(fault) => Err(fault),
        Ok(batch) => if all_filled(batch.slots) {
            Ok(slot_outcomes(batch.slots))
        } else {
            Err(BatchError::Incomplete)
        },
    }
}

/// No slot is filled in a fresh batch.
pub proof fn lemma_fresh_batch_is_empty(tools: ToolNames)
    ensures
        filled(fresh_batch(tools).slots) == 0,
{
    lemma_filled_none(fresh_batch(tools).slots);
}

proof fn lemma_filled_none(slots: Seq<Option<OutcomeView>>)
    requires
        forall|i: int| 0 <= i < slots.len() ==> (#[trigger] slots[i]) is None,
    ensures
        filled(slots) == 0,
    decreases slots.len(),
{
    if slots.len() > 0 {
        lemma_filled_none(slots.drop_last());
    }
}

/// Filling an empty slot raises the number of filled slots by one.
pub proof fn lemma_filled_after_update(
    slots: Seq<Option<OutcomeView>>,
    index: int,
    outcome: OutcomeView,
)
    requires
        0 <= index < slots.len(),
        slots[index] is None,
    ensures
        filled(slots.update(index, Some(outcome))) == filled(slots) + 1,
    decreases slots.len(),
{
    let after = slots.update(index, Some(outcome));
    if index == slots.len() - 1 {
        assert(after.drop_last() =~= slots.drop_last());
    } else {
        lemma_filled_after_update(slots.drop_last(), index, outcome);
        assert(after.drop_last() =~= slots.drop_last().update(index, Some(outcome)));
    }
}

/// There are no more filled slots than slots, and as many exactly when
/// every slot is filled.
pub proof fn lemma_filled_bounds(slots: Seq<Option<OutcomeView>>)
    ensures
        filled(slots) <= slots.len(),
        filled(slots) == slots.len() <==> all_filled(slots),
    decreases slots.len(),
{
    if slots.len() > 0 {
        let front = slots.drop_last();
        lemma_filled_bounds(front);
        if all_filled(slots) {
            assert forall|i: int| 0 <= i < front.len() implies (#[trigger] front[i]) is Some by {
                assert(slots[i] is Some);
            }
            assert(slots[slots.len() - 1] is Some);
        }
        if filled(slots) == slots.len() {
            assert forall|i: int| 0 <= i < slots.len() implies (#[trigger] slots[i]) is Some by {
                if i < front.len() {
                    assert(front[i] is Some);
                }
            }
        }
    }
}

/// Executes one batch of installs: holds the submitted tools, files the
/// outcomes as they arrive and counts them.
#[derive(Debug)]
pub struct InstallOrchestrator {
    tools: Vec<String>,
    slots: Vec<Option<InstallOutcome>>,
    tracker: ProgressTracker,
}

/// A batch that ran to its end.
#[derive(Debug)]
pub struct FinishedBatch {
    /// The outcomes, in the order in which the tools were submitted.
    pub report: BatchReport,
    /// The final count of the progress.
    pub progress: FinishedProgress,
}

impl View for InstallOrchestrator {
    type V = BatchView;

    closed spec fn view(&self) -> BatchView {
        BatchView { tools: self.tools.deep_view(), slots: self.slots.deep_view() }
    }
}

fn file_outcome(
    slots: &mut Vec<Option<InstallOutcome>>,
    tracker: &mut ProgressTracker,
    index: usize,
    outcome: InstallOutcome,
)
    requires
        index < old(slots)@.len(),
        old(slots)@[index as int] is None,
        old(tracker)@.total == old(slots)@.len(),
        old(tracker)@.completed == filled(old(slots).deep_view()),
    ensures
        final(slots).deep_view() == old(slots).deep_view().update(index as int, Some(outcome@)),
        final(tracker)@.total == old(tracker)@.total,
        final(tracker)@.completed == filled(final(slots).deep_view()),
    no_unwind
{
    proof {
        assert(slots.deep_view()[index as int] is None);
        lemma_filled_bounds(slots.deep_view());
        lemma_filled_after_update(slots.deep_view(), index as int, outcome@);
    }
    let ghost before = slots.deep_view();
    slots[index] = Some(outcome);
    assert(slots.deep_view() =~= before.update(index as int, Some(outcome@)));
    tracker.advance();
}

impl InstallOrchestrator {
    #[verifier::type_invariant]
    spec fn consistent(&self) -> bool {
        &&& self.slots@.len() == self.tools@.len()
        &&& self.tracker@.total == self.tools@.len()
        &&& self.tracker@.completed == filled(self.slots.deep_view())
    }

    /// Starts a batch for `tools`: one empty slot per tool, progress at
    /// zero of as many units as there are tools.
    pub fn start(tools: Vec<String>) -> (batch: InstallOrchestrator)
        ensures
            batch@ == fresh_batch(tools.deep_view()),
    {
        let mut slots: Vec<Option<InstallOutcome>> = Vec::new();
        let mut i: usize = 0;
        while i < tools.len()
            invariant
                i <= tools.len(),
                slots@.len() == i,
                forall|k: int| 0 <= k < i ==> (#[trigger] slots@[k]) is None,
            decreases tools.len() - i,
        {
            slots.push(None);
            i = i + 1;
        }
        let tracker = ProgressTracker::start(tools.len() as u64);
        proof {
            assert(slots.deep_view() =~= fresh_batch(tools.deep_view()).slots);
            lemma_fresh_batch_is_empty(tools.deep_view());
        }
        InstallOrchestrator { tools, slots, tracker }
    }

    /// The submitted tools, in their order.
    pub fn tools(&self) -> (tools: &Vec<String>)
        ensures
            tools.deep_view() == self@.tools,
            self@.slots.len() == self@.tools.len(),
    {
        proof {
            use_type_invariant(self);
        }
        &self.tools
    }

    /// The number of submitted tools.
    pub fn len(&self) -> (len: usize)
        ensures
            len == self@.tools.len(),
            len == self@.slots.len(),
    {
        proof {
            use_type_invariant(self);
        }
        self.tools.len()
    }

    /// Files `outcome` under the position `index` and advances the
    /// progress by one. A position outside the batch or one that has its
    /// outcome already is refused, and nothing changes.
    pub fn record(&mut self, index: usize, outcome: InstallOutcome) -> (result: Result<
        (),
        BatchError,
    >)
        ensures
            match result {
                Ok(_) => record_fault(old(self)@, index as int) is None && final(self)@ == recorded(
                    old(self)@,
                    index as int,
                    outcome@,
                ),
                Err(fault) => record_fault(old(self)@, index as int) == Some(fault) && final(self)@
                    == old(self)@,
            },
    {
        proof {
            use_type_invariant(&*self);
        }
        if index >= self.slots.len() {
            return Err(BatchError::OutOfRange);
        }
        if self.slots[index].is_some() {
            return Err(BatchError::AlreadyRecorded);
        }
        file_outcome(&mut self.slots, &mut self.tracker, index, outcome);
        Ok(())
    }

    /// The progress: finished units and all units. The finished units are
    /// exactly the filled slots.
    pub fn progress(&self) -> (progress: (u64, u64))
        ensures
            progress.0 == batch_progress(self@).completed,
            progress.1 == batch_progress(self@).total,
            progress.0 <= progress.1,
    {
        proof {
            use_type_invariant(self);
        }
        self.tracker.snapshot()
    }

    /// Whether every tool has its outcome.
    pub fn is_complete(&self) -> (complete: bool)
        ensures
            complete == all_filled(self@.slots),
    {
        proof {
            use_type_invariant(self);
            lemma_filled_bounds(self@.slots);
        }
        self.tracker.is_complete()
    }

    /// Ends the batch. If every tool has its outcome, the report lists the
    /// outcomes in the order in which the tools were submitted, and the
    /// progress stands at all of all. Otherwise the batch is incomplete.
    pub fn finish(self) -> (result: Result<FinishedBatch, BatchError>)
        ensures
            match result {
                Ok(done) => {
                    &&& all_filled(self@.slots)
                    &&& done.report@ == slot_outcomes(self@.slots)
                    &&& done.progress.completed == self@.tools.len()
                    &&& done.progress.total == self@.tools.len()
                },
                Err(fault) => fault == BatchError::Incomplete && !all_filled(self@.slots),
            },
    {
        proof {
            use_type_invariant(&self);
            lemma_filled_bounds(self@.slots);
        }
        let mut outcomes: Vec<InstallOutcome> = Vec::new();
        let mut i: usize = 0;
        while i < self.slots.len()
            invariant
                i <= self.slots@.len(),
                outcomes@.len() == i,
                forall|k: int| 0 <= k < i ==> (#[trigger] self.slots@[k]) is Some,
                forall|k: int| 0 <= k < i ==> (#[trigger] outcomes@[k])@ == self.slots@[k]->0@,
            decreases self.slots@.len() - i,
        {
            match &self.slots[i] {
                Some(outcome) => {
                    outcomes.push(outcome.clone());
                },
                None => {
                    assert(self@.slots[i as int] is None);
                    return Err(BatchError::Incomplete);
                },
            }
            i = i + 1;
        }
        proof {
            assert forall|k: int| 0 <= k < self@.slots.len() implies (#[trigger] self@.slots[k]) is Some by {
                assert(self.slots@[k] is Some);
            }
            assert(outcomes.deep_view() =~= slot_outcomes(self@.slots));
        }
        let report = BatchReport::from_outcomes(outcomes);
        let progress = self.tracker.finish();
        Ok(FinishedBatch { report, progress })
    }

    /// Runs a whole batch from the completions in the order in which
    /// they came in: starts a batch for `tools`, files every completion
    /// and finishes. The report lists one outcome per tool in the order of
    /// `tools`, whatever the order of the completions. The first
    /// completion that cannot be filed ends the run with its fault; a tool
    /// left without outcome makes the batch incomplete.
    pub fn run_batch(tools: Vec<String>, completions: &[Completion]) -> (result: Result<
        BatchReport,
        BatchError,
    >)
        ensures
            match result {
                Ok(report) => batch_result(tools.deep_view(), completions.deep_view()) == Ok::<
                    Seq<OutcomeView>,
                    BatchError,
                >(report@),
                Err(fault) => batch_result(tools.deep_view(), completions.deep_view()) == Err::<
                    Seq<OutcomeView>,
                    BatchError,
                >(fault),
            },
    {
        let ghost names = tools.deep_view();
        let ghost all = completions.deep_view();
        let mut batch = InstallOrchestrator::start(tools);
        let mut i: usize = 0;
        assert(all.skip(0) =~= all);
        while i < completions.len()
            invariant
                i <= completions.len(),
                names == tools.deep_view(),
                all == completions.deep_view(),
                replay(fresh_batch(names), all) == replay(batch@, all.skip(i as int)),
            decreases completions.len() - i,
        {
            let ghost rest = all.skip(i as int);
            assert(rest[0] == completions@[i as int]@);
            assert(rest.drop_first() =~= all.skip(i + 1));
            let ghost before = batch@;
            let filed = batch.record(completions[i].index, completions[i].outcome.clone());
            match filed {
                Ok(_) => {
                    assert(replay(before, rest) == replay(batch@, rest.drop_first()));
                },
                Err(fault) => {
                    assert(replay(before, rest) == Err::<BatchView, BatchError>(fault));
                    return Err(fault);
                },
            }
            i = i + 1;
        }
        assert(all.skip(i as int).len() == 0);
        match batch.finish() {
            Ok(done) => Ok(done.report),
            Err(fault) => Err(fault),
        }
    }
}

/// Every tool has exactly one completion: there are as many completions
/// as tools, each names a position of the batch, and no two name the same.
pub open spec fn each_tool_once(count: nat, completions: Seq<CompletionView>) -> bool {
    &&& completions.len() == count
    &&& forall|k: int|
        0 <= k < completions.len() ==> 0 <= (#[trigger] completions[k]).index < count
    &&& forall|j: int, k: int|
        0 <= j < k < completions.len() ==> (#[trigger] completions[j]).index != (
        #[trigger] completions[k]).index
}

/// Whether some completion names the position `index`.
pub open spec fn has_completion(completions: Seq<CompletionView>, index: int) -> bool {
    exists|k: int| 0 <= k < completions.len() && (#[trigger] completions[k]).index == index
}

proof fn lemma_replay_shape(batch: BatchView, completions: Seq<CompletionView>)
    requires
        replay(batch, completions) is Ok,
    ensures
        replay(batch, completions)->Ok_0.tools == batch.tools,
        replay(batch, completions)->Ok_0.slots.len() == batch.slots.len(),
        filled(replay(batch, completions)->Ok_0.slots) == filled(batch.slots) + completions.len(),
    decreases completions.len(),
{
    if completions.len() > 0 {
        let first = completions[0];
        lemma_filled_after_update(batch.slots, first.index, first.outcome);
        lemma_replay_shape(recorded(batch, first.index, first.outcome), completions.drop_first());
    }
}

proof fn lemma_replay_keeps_filled(batch: BatchView, completions: Seq<CompletionView>, i: int)
    requires
        replay(batch, completions) is Ok,
        0 <= i < batch.slots.len(),
        batch.slots[i] is Some,
    ensures
        replay(batch, completions)->Ok_0.slots[i] == batch.slots[i],
    decreases completions.len(),
{
    if completions.len() > 0 {
        let first = completions[0];
        lemma_replay_keeps_filled(
            recorded(batch, first.index, first.outcome),
            completions.drop_first(),
            i,
        );
    }
}

proof fn lemma_replay_untouched(batch: BatchView, completions: Seq<CompletionView>, i: int)
    requires
        replay(batch, completions) is Ok,
        0 <= i < batch.slots.len(),
        !has_completion(completions, i),
    ensures
        replay(batch, completions)->Ok_0.slots[i] == batch.slots[i],
    decreases completions.len(),
{
    if completions.len() > 0 {
        let first = completions[0];
        let rest = completions.drop_first();
        assert(completions[0].index != i);
        assert(!has_completion(rest, i)) by {
            if has_completion(rest, i) {
                let k = choose|k: int| 0 <= k < rest.len() && (#[trigger] rest[k]).index == i;
                assert(completions[k + 1].index == i);
            }
        }
        lemma_replay_untouched(recorded(batch, first.index, first.outcome), rest, i);
    }
}

proof fn lemma_replay_at(batch: BatchView, completions: Seq<CompletionView>, k: int)
    requires
        replay(batch, completions) is Ok,
        0 <= k < completions.len(),
    ensures
        0 <= completions[k].index < batch.slots.len(),
        batch.slots[completions[k].index] is None,
        replay(batch, completions)->Ok_0.slots[completions[k].index] == Some(
            completions[k].outcome,
        ),
    decreases completions.len(),
{
    let first = completions[0];
    let rest = completions.drop_first();
    let next = recorded(batch, first.index, first.outcome);
    if k == 0 {
        lemma_replay_keeps_filled(next, rest, first.index);
    } else {
        assert(rest[k - 1] == completions[k]);
        lemma_replay_at(next, rest, k - 1);
    }
}

proof fn lemma_replay_distinct(
    batch: BatchView,
    completions: Seq<CompletionView>,
    j: int,
    k: int,
)
    requires
        replay(batch, completions) is Ok,
        0 <= j < k < completions.len(),
    ensures
        completions[j].index != completions[k].index,
    decreases completions.len(),
{
    let first = completions[0];
    let rest = completions.drop_first();
    let next = recorded(batch, first.index, first.outcome);
    assert(rest[k - 1] == completions[k]);
    if j == 0 {
        lemma_replay_at(next, rest, k - 1);
    } else {
        assert(rest[j - 1] == completions[j]);
        lemma_replay_distinct(next, rest, j - 1, k - 1);
    }
}

/// What filing a run of completions does to a batch, if all of them can be
/// filed: every completion lands in a slot of its own that was empty
/// before, all other slots stay as they were, and the number of filled
/// slots grows by the number of completions.
pub proof fn lemma_replay_files_each(batch: BatchView, completions: Seq<CompletionView>)
    requires
        replay(batch, completions) is Ok,
    ensures
        ({
            let after = replay(batch, completions)->Ok_0;
            &&& after.tools == batch.tools
            &&& after.slots.len() == batch.slots.len()
            &&& filled(after.slots) == filled(batch.slots) + completions.len()
            &&& forall|k: int|
                0 <= k < completions.len() ==> {
                    &&& 0 <= (#[trigger] completions[k]).index < batch.slots.len()
                    &&& batch.slots[completions[k].index] is None
                    &&& after.slots[completions[k].index] == Some(completions[k].outcome)
                }
            &&& forall|j: int, k: int|
                0 <= j < k < completions.len() ==> (#[trigger] completions[j]).index != (
                #[trigger] completions[k]).index
            &&& forall|i: int|
                0 <= i < batch.slots.len() && !has_completion(completions, i)
                    ==> #[trigger] after.slots[i] == batch.slots[i]
        }),
{
    let after = replay(batch, completions)->Ok_0;
    lemma_replay_shape(batch, completions);
    assert forall|k: int| 0 <= k < completions.len() implies {
        &&& 0 <= (#[trigger] completions[k]).index < batch.slots.len()
        &&& batch.slots[completions[k].index] is None
        &&& after.slots[completions[k].index] == Some(completions[k].outcome)
    } by {
        lemma_replay_at(batch, completions, k);
    }
    assert forall|j: int, k: int| 0 <= j < k < completions.len() implies (
    #[trigger] completions[j]).index != (#[trigger] completions[k]).index by {
        lemma_replay_distinct(batch, completions, j, k);
    }
    assert forall|i: int|
        0 <= i < batch.slots.len() && !has_completion(completions, i)
            implies #[trigger] after.slots[i] == batch.slots[i] by {
        lemma_replay_untouched(batch, completions, i);
    }
}

/// Completions that each name an empty slot of their own can all be
/// filed.
pub proof fn lemma_replay_succeeds(batch: BatchView, completions: Seq<CompletionView>)
    requires
        forall|k: int|
            0 <= k < completions.len() ==> 0 <= (#[trigger] completions[k]).index
                < batch.slots.len() && batch.slots[completions[k].index] is None,
        forall|j: int, k: int|
            0 <= j < k < completions.len() ==> (#[trigger] completions[j]).index != (
            #[trigger] completions[k]).index,
    ensures
        replay(batch, completions) is Ok,
    decreases completions.len(),
{
    if completions.len() > 0 {
        let first = completions[0];
        let rest = completions.drop_first();
        let next = recorded(batch, first.index, first.outcome);
        assert forall|k: int| 0 <= k < rest.len() implies 0 <= (#[trigger] rest[k]).index
            < next.slots.len() && next.slots[rest[k].index] is None by {
            assert(rest[k] == completions[k + 1]);
            assert(completions[0].index != completions[k + 1].index);
        }
        assert forall|j: int, k: int| 0 <= j < k < rest.len() implies (#[trigger] rest[j]).index
            != (#[trigger] rest[k]).index by {
            assert(rest[j] == completions[j + 1]);
            assert(rest[k] == completions[k + 1]);
        }
        lemma_replay_succeeds(next, rest);
    }
}

/// A batch yields a report exactly when every tool has exactly one
/// completion. The report then has one outcome per tool, and the outcome
/// of each completion stands at the position that the completion names: the
/// order of the report is that of the submitted tools, whatever the order
/// in which the completions came in. Every position of the report stems
/// from some completion.
pub proof fn lemma_report_in_input_order(tools: ToolNames, completions: Seq<CompletionView>)
    ensures
        batch_result(tools, completions) is Ok <==> each_tool_once(tools.len(), completions),
        batch_result(tools, completions) matches Ok(report) ==> {
            &&& report.len() == tools.len()
            &&& forall|k: int|
                0 <= k < completions.len() ==> report[(#[trigger] completions[k]).index]
                    == completions[k].outcome
            &&& forall|i: int| 0 <= i < report.len() ==> #[trigger] has_completion(completions, i)
        },
{
    let start = fresh_batch(tools);
    lemma_fresh_batch_is_empty(tools);
    if each_tool_once(tools.len(), completions) {
        lemma_replay_succeeds(start, completions);
    }
    if replay(start, completions) is Ok {
        let after = replay(start, completions)->Ok_0;
        lemma_replay_files_each(start, completions);
        lemma_filled_bounds(after.slots);
        if all_filled(after.slots) {
            let report = slot_outcomes(after.slots);
            assert forall|i: int| 0 <= i < report.len() implies #[trigger] has_completion(
                completions,
                i,
            ) by {
                if !has_completion(completions, i) {
                    assert(after.slots[i] == start.slots[i]);
                    assert(after.slots[i] is Some);
                    assert(false);
                }
            }
        }
    }
}

/// Every completion that is filed is counted once: after a run of
/// completions that could all be filed, the progress stands at their
/// number. So it stands at all of all exactly when every tool has its
/// outcome, and a batch in which every tool has exactly one completion
/// ends there.
pub proof fn lemma_progress_counts_completions(tools: ToolNames, completions: Seq<CompletionView>)
    requires
        replay(fresh_batch(tools), completions) is Ok,
    ensures
        batch_progress(replay(fresh_batch(tools), completions)->Ok_0) == (ProgressView {
            total: tools.len(),
            completed: completions.len(),
        }),
        completions.len() <= tools.len(),
        completions.len() == tools.len() <==> all_filled(
            replay(fresh_batch(tools), completions)->Ok_0.slots,
        ),
{
    lemma_fresh_batch_is_empty(tools);
    lemma_replay_shape(fresh_batch(tools), completions);
    lemma_filled_bounds(replay(fresh_batch(tools), completions)->Ok_0.slots);
}

/// Why the completion at position `k` of a run cannot be filed in a batch
/// of `count` tools, if it cannot: it names a position outside the batch,
/// or one that an earlier completion of the run has named.
pub open spec fn fault_at(count: nat, completions: Seq<CompletionView>, k: int) -> Option<
    BatchError,
> {
    if !(0 <= completions[k].index < count) {
        Some(BatchError::OutOfRange)
    } else if has_completion(completions.take(k), completions[k].index) {
        Some(BatchError::AlreadyRecorded)
    } else {
        None
    }
}

/// Whether the completion at position `k` is the first of the run that
/// cannot be filed, and `fault` is why.
pub open spec fn first_fault_at(
    count: nat,
    completions: Seq<CompletionView>,
    k: int,
    fault: BatchError,
) -> bool {
    &&& 0 <= k < completions.len()
    &&& fault_at(count, completions, k) == Some(fault)
    &&& forall|j: int| 0 <= j < k ==> (#[trigger] fault_at(count, completions, j)) is None
}

proof fn lemma_replay_one_more(batch: BatchView, front: Seq<CompletionView>, last: CompletionView)
    ensures
        replay(batch, front.push(last)) == match replay(batch, front) {
            Err(fault) => Err::<BatchView, BatchError>(fault),
            Ok(after) => match record_fault(after, last.index) {
                Some(fault) => Err(fault),
                None => Ok(recorded(after, last.index, last.outcome)),
            },
        },
    decreases front.len(),
{
    let all = front.push(last);
    if front.len() == 0 {
        assert(all.drop_first() =~= Seq::<CompletionView>::empty());
        assert(all[0] == last);
        if record_fault(batch, last.index) is None {
            assert(replay(recorded(batch, last.index, last.outcome), all.drop_first()) == Ok::<
                BatchView,
                BatchError,
            >(recorded(batch, last.index, last.outcome)));
        }
    } else {
        assert(all[0] == front[0]);
        assert(all.drop_first() =~= front.drop_first().push(last));
        if record_fault(batch, front[0].index) is None {
            lemma_replay_one_more(
                recorded(batch, front[0].index, front[0].outcome),
                front.drop_first(),
                last,
            );
        }
    }
}

proof fn lemma_fault_at_in_front(count: nat, completions: Seq<CompletionView>, k: int)
    requires
        0 <= k < completions.len() - 1,
    ensures
        fault_at(count, completions.drop_last(), k) == fault_at(count, completions, k),
{
    assert(completions.drop_last().take(k) =~= completions.take(k));
}

proof fn lemma_replay_faults(tools: ToolNames, completions: Seq<CompletionView>)
    ensures
        match replay(fresh_batch(tools), completions) {
            Ok(_) => forall|k: int|
                0 <= k < completions.len() ==> (#[trigger] fault_at(
                    tools.len(),
                    completions,
                    k,
                )) is None,
            Err(fault) => fault != BatchError::Incomplete && exists|k: int|
                first_fault_at(tools.len(), completions, k, fault),
        },
    decreases completions.len(),
{
    let count = tools.len();
    let start = fresh_batch(tools);
    if completions.len() > 0 {
        let front = completions.drop_last();
        let last = completions.last();
        let at = completions.len() - 1;
        assert(completions =~= front.push(last));
        lemma_replay_one_more(start, front, last);
        lemma_replay_faults(tools, front);
        assert forall|j: int| 0 <= j < at implies fault_at(count, front, j) == fault_at(
            count,
            completions,
            j,
        ) by {
            lemma_fault_at_in_front(count, completions, j);
        }
        match replay(start, front) {
            Err(fault) => {
                let k = choose|k: int| first_fault_at(count, front, k, fault);
                assert forall|j: int| 0 <= j < k implies (#[trigger] fault_at(
                    count,
                    completions,
                    j,
                )) is None by {
                    assert(fault_at(count, front, j) is None);
                }
                assert(first_fault_at(count, completions, k, fault));
            },
            Ok(after) => {
                lemma_replay_files_each(start, front);
                assert(completions.take(at) =~= front);
                assert forall|j: int| 0 <= j < at implies (#[trigger] fault_at(
                    count,
                    completions,
                    j,
                )) is None by {
                    assert(fault_at(count, front, j) is None);
                }
                if 0 <= last.index < count {
                    if has_completion(front, last.index) {
                        let j = choose|j: int|
                            0 <= j < front.len() && (#[trigger] front[j]).index == last.index;
                        assert(after.slots[front[j].index] is Some);
                    } else {
                        assert(after.slots[last.index] == start.slots[last.index]);
                    }
                }
                match record_fault(after, last.index) {
                    Some(fault) => {
                        assert(fault_at(count, completions, at) == Some(fault));
                        assert(first_fault_at(count, completions, at, fault));
                    },
                    None => {
                        assert(fault_at(count, completions, at) is None);
                    },
                }
            },
        }
    }
}

/// The first completion that cannot be filed decides the error of a
/// batch: the error is that completion's fault. A batch whose completions
/// can all be filed fails only by being incomplete, and then there are
/// fewer completions than tools.
pub proof fn lemma_first_fault_decides(tools: ToolNames, completions: Seq<CompletionView>)
    ensures
        match batch_result(tools, completions) {
            Ok(_) => forall|k: int|
                0 <= k < completions.len() ==> (#[trigger] fault_at(
                    tools.len(),
                    completions,
                    k,
                )) is None,
            Err(fault) => if fault == BatchError::Incomplete {
                &&& completions.len() < tools.len()
                &&& forall|k: int|
                    0 <= k < completions.len() ==> (#[trigger] fault_at(
                        tools.len(),
                        completions,
                        k,
                    )) is None
            } else {
                exists|k: int| first_fault_at(tools.len(), completions, k, fault)
            },
        },
{
    lemma_replay_faults(tools, completions);
    if replay(fresh_batch(tools), completions) is Ok {
        lemma_progress_counts_completions(tools, completions);
    }
}

/// A failing tool is isolated. Take two runs of the same batch in which
/// the completions come in for the same positions in the same order and
/// carry the same outcomes, except for the tool at position `failing`,
/// which may fare differently. Then one run yields a report exactly when
/// the other does, and the two reports agree on every other tool.
pub proof fn lemma_failure_is_isolated(
    tools: ToolNames,
    first: Seq<CompletionView>,
    second: Seq<CompletionView>,
    failing: int,
)
    requires
        first.len() == second.len(),
        forall|k: int| 0 <= k < first.len() ==> (#[trigger] first[k]).index == second[k].index,
        forall|k: int|
            0 <= k < first.len() && (#[trigger] first[k]).index != failing ==> first[k].outcome
                == second[k].outcome,
    ensures
        batch_result(tools, first) is Ok <==> batch_result(tools, second) is Ok,
        batch_result(tools, first) is Ok ==> forall|i: int|
            0 <= i < tools.len() && i != failing ==> (#[trigger] batch_result(
                tools,
                first,
            )->Ok_0[i]) == batch_result(tools, second)->Ok_0[i],
{
    lemma_report_in_input_order(tools, first);
    lemma_report_in_input_order(tools, second);
    if each_tool_once(tools.len(), first) {
        assert forall|k: int| 0 <= k < second.len() implies 0 <= (#[trigger] second[k]).index
            < tools.len() by {
            assert(first[k].index == second[k].index);
        }
        assert forall|j: int, k: int| 0 <= j < k < second.len() implies (
        #[trigger] second[j]).index != (#[trigger] second[k]).index by {
            assert(first[j].index == second[j].index);
            assert(first[k].index == second[k].index);
        }
    }
    if each_tool_once(tools.len(), second) {
        assert forall|k: int| 0 <= k < first.len() implies 0 <= (#[trigger] first[k]).index
            < tools.len() by {
            assert(first[k].index == second[k].index);
        }
        assert forall|j: int, k: int| 0 <= j < k < first.len() implies (#[trigger] first[j]).index
            != (#[trigger] first[k]).index by {
            assert(first[j].index == second[j].index);
            assert(first[k].index == second[k].index);
        }
    }
    if batch_result(tools, first) is Ok {
        let one = batch_result(tools, first)->Ok_0;
        let two = batch_result(tools, second)->Ok_0;
        assert forall|i: int| 0 <= i < tools.len() && i != failing implies (#[trigger] one[i])
            == two[i] by {
            assert(has_completion(first, i));
            let k = choose|k: int| 0 <= k < first.len() && (#[trigger] first[k]).index == i;
            assert(second[k].index == i);
            assert(one[first[k].index] == first[k].outcome);
            assert(two[second[k].index] == second[k].outcome);
        }
    }
}

} // verus!
