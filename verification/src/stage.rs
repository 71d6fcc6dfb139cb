//! Stages and the choice of tools within a stage.
//!
//! A stage is a named list of tools that are installed together. Before a
//! stage runs, its list may be narrowed to a selection: positions in the
//! stage's list, in the order in which they are to be submitted. Without a
//! wish to customize, the selection is the whole list and nobody is asked.
//! With it, the selection is what the user chose; a user who cancels
//! chooses nothing at all, and the stage is skipped without any work.

use crate::batch::{batch_result, BatchError, Completion, CompletionView, InstallOrchestrator};
use crate::outcome::{BatchReport, OutcomeView};
use crate::style::{green, heading, is_heading, is_plain};
use crate::tools::{copy_tools, ToolNames};
use vstd::prelude::*;

verus! {

/// A named group of tools.
#[derive(Debug, PartialEq, Eq)]
pub struct Stage {
    pub name: String,
    pub tools: Vec<String>,
}

/// Mathematical model of a [`Stage`].
pub struct StageView {
    pub name: Seq<char>,
    pub tools: ToolNames,
}

impl View for Stage {
    type V = StageView;

    open spec fn view(&self) -> StageView {
        StageView { name: self.name@, tools: self.tools.deep_view() }
    }
}

/// Positions in a stage's list of tools, in the order of submission.
#[derive(Debug, PartialEq, Eq)]
pub struct SelectionSet {
    pub indices: Vec<usize>,
}

impl View for SelectionSet {
    type V = Seq<int>;

    open spec fn view(&self) -> Seq<int> {
        Seq::new(self.indices@.len(), |k: int| self.indices@[k] as int)
    }
}

/// The selection of all `count` positions, in ascending order.
pub open spec fn full_selection(count: nat) -> Seq<int> {
    Seq::new(count, |k: int| k)
}

/// Whether every position of the selection lies within a list of `count`
/// tools.
pub open spec fn selection_fits(count: nat, selection: Seq<int>) -> bool {
    forall|k: int| 0 <= k < selection.len() ==> 0 <= #[trigger] selection[k] < count
}

/// The tools that a selection picks, in the order of the selection.
pub open spec fn selected_tools(tools: ToolNames, selection: Seq<int>) -> ToolNames {
    Seq::new(selection.len(), |k: int| tools[selection[k]])
}

/// Selecting everything picks the whole list as it stands.
pub proof fn lemma_full_selection_picks_all(tools: ToolNames)
    ensures
        selection_fits(tools.len(), full_selection(tools.len())),
        selected_tools(tools, full_selection(tools.len())) == tools,
{
    assert(selected_tools(tools, full_selection(tools.len())) =~= tools);
}

impl SelectionSet {
    /// The selection of every position of a list of `count` tools.
    pub fn full(count: usize) -> (selection: SelectionSet)
        ensures
            selection@ == full_selection(count as nat),
    {
        let mut indices: Vec<usize> = Vec::new();
        let mut i: usize = 0;
        while i < count
            invariant
                i <= count,
                indices@.len() == i,
                forall|k: int| 0 <= k < i ==> indices@[k] == k,
            decreases count - i,
        {
            indices.push(i);
            i = i + 1;
        }
        let selection = SelectionSet { indices };
        assert(selection@ =~= full_selection(count as nat));
        selection
    }

    /// The selection of the given positions.
    pub fn from_indices(indices: Vec<usize>) -> (selection: SelectionSet)
        ensures
            selection.indices == indices,
    {
        SelectionSet { indices }
    }

    /// The number of selected positions.
    pub fn len(&self) -> (len: usize)
        ensures
            len == self@.len(),
    {
        self.indices.len()
    }

    /// Whether every selected position lies within a list of `count`
    /// tools.
    pub fn fits(&self, count: usize) -> (fits: bool)
        ensures
            fits == selection_fits(count as nat, self@),
    {
        let mut i: usize = 0;
        while i < self.indices.len()
            invariant
                i <= self.indices@.len(),
                forall|k: int| 0 <= k < i ==> 0 <= #[trigger] self@[k] < count,
            decreases self.indices@.len() - i,
        {
            if self.indices[i] >= count {
                assert(!(0 <= self@[i as int] < count));
                return false;
            }
            i = i + 1;
        }
        true
    }
}

/// The question whether a stage is to be narrowed.
pub open spec fn customize_prompt(stage: Seq<char>) -> Seq<char> {
    "Do you want to customize the tools in this stage for "@ + stage + "?"@
}

/// The request to select among the tools of a stage.
pub open spec fn selection_prompt(stage: Seq<char>) -> Seq<char> {
    "Select the tools to install for "@ + stage
}

/// The heading under which a stage is shown: a line break, the name in
/// green and a colon. The terminal decides whether the name is painted.
/// Of a name that holds an escape character only the frame is known.
pub fn stage_heading(stage: &str) -> (line: String)
    ensures
        is_plain(stage@) ==> is_heading(stage@, line@),
        line@.len() >= 2,
        line@.first() == '\n',
        line@.last() == ':',
{
    proof {
        reveal_strlit("\n");
        reveal_strlit(":");
    }
    let title = green(stage);
    heading(title.as_str())
}

/// The question whether the stage of the given name is to be narrowed.
pub fn customize_prompt_text(stage: &str) -> (prompt: String)
    ensures
        prompt@ == customize_prompt(stage@),
{
    let mut prompt = "Do you want to customize the tools in this stage for ".to_owned();
    prompt.append(stage);
    prompt.append("?");
    prompt
}

/// The request to select among the tools of the stage of the given name.
pub fn selection_prompt_text(stage: &str) -> (prompt: String)
    ensures
        prompt@ == selection_prompt(stage@),
{
    let mut prompt = "Select the tools to install for ".to_owned();
    prompt.append(stage);
    prompt
}

impl Stage {
    /// The tools that `selection` picks from this stage, in the order of
    /// the selection; none if a position lies outside the stage.
    pub fn select(&self, selection: &SelectionSet) -> (picked: Option<Vec<String>>)
        ensures
            match picked {
                Some(tools) => selection_fits(self@.tools.len(), selection@) && tools.deep_view()
                    == selected_tools(self@.tools, selection@),
                None => !selection_fits(self@.tools.len(), selection@),
            },
    {
        let mut tools: Vec<String> = Vec::new();
        let mut i: usize = 0;
        while i < selection.indices.len()
            invariant
                i <= selection.indices@.len(),
                tools@.len() == i,
                forall|k: int| 0 <= k < i ==> 0 <= #[trigger] selection@[k] < self.tools@.len(),
                forall|k: int|
                    0 <= k < i ==> (#[trigger] tools@[k])@ == self.tools@[selection@[k]]@,
            decreases selection.indices@.len() - i,
        {
            let index = selection.indices[i];
            if index >= self.tools.len() {
                assert(!(0 <= selection@[i as int] < self@.tools.len()));
                return None;
            }
            tools.push(self.tools[index].clone());
            i = i + 1;
        }
        assert(tools.deep_view() =~= selected_tools(self@.tools, selection@));
        Some(tools)
    }
}

/// What is to happen with a stage.
#[derive(Debug, PartialEq, Eq)]
pub enum StagePlan {
    /// These tools are submitted as one batch.
    Dispatch(Vec<String>),
    /// The user cancelled: nothing is submitted.
    Cancelled,
}

/// Mathematical model of a [`StagePlan`].
pub enum StagePlanView {
    Dispatch(ToolNames),
    Cancelled,
}

impl View for StagePlan {
    type V = StagePlanView;

    open spec fn view(&self) -> StagePlanView {
        match self {
            StagePlan::Dispatch(tools) => StagePlanView::Dispatch(tools.deep_view()),
            StagePlan::Cancelled => StagePlanView::Cancelled,
        }
    }
}

/// A selection names a position that the stage does not have.
#[derive(Copy, Clone, Debug, PartialEq, Eq, Structural)]
pub struct InvalidSelection;

/// The plan for a stage. Without customizing, the whole stage is
/// submitted and the choice plays no part. With customizing, the chosen
/// tools are submitted, and a missing choice cancels the stage.
pub open spec fn stage_plan(stage: StageView, customize: bool, choice: Option<Seq<int>>) -> Result<
    StagePlanView,
    InvalidSelection,
> {
    if !customize {
        Ok(StagePlanView::Dispatch(stage.tools))
    } else {
        match choice {
            None => Ok(StagePlanView::Cancelled),
            Some(selection) => if selection_fits(stage.tools.len(), selection) {
                Ok(StagePlanView::Dispatch(selected_tools(stage.tools, selection)))
            } else {
                Err(InvalidSelection)
            },
        }
    }
}

/// The tools that a plan submits.
pub open spec fn dispatched_tools(plan: StagePlanView) -> ToolNames {
    match plan {
        StagePlanView::Dispatch(tools) => tools,
        StagePlanView::Cancelled => Seq::empty(),
    }
}

/// The model of a choice as the user made it.
pub open spec fn choice_view(choice: Option<SelectionSet>) -> Option<Seq<int>> {
    match choice {
        Some(selection) => Some(selection@),
        None => None,
    }
}

/// Narrows a stage to a selection and hands the selection on as a batch.
pub struct StageRunner;

impl StageRunner {
    /// Decides what is submitted for `stage`. `choice` is the answer of the
    /// user who was asked to select, `None` if the user cancelled; it is
    /// looked at only when `customize` is set.
    pub fn plan(stage: &Stage, customize: bool, choice: Option<SelectionSet>) -> (plan: Result<
        StagePlan,
        InvalidSelection,
    >)
        ensures
            match plan {
                Ok(p) => stage_plan(stage@, customize, choice_view(choice)) == Ok::<
                    StagePlanView,
                    InvalidSelection,
                >(p@),
                Err(e) => stage_plan(stage@, customize, choice_view(choice)) == Err::<
                    StagePlanView,
                    InvalidSelection,
                >(e),
            },
    {
        if !customize {
            return Ok(StagePlan::Dispatch(copy_tools(stage.tools.as_slice())));
        }
        match choice {
            None => Ok(StagePlan::Cancelled),
            Some(selection) => match stage.select(&selection) {
                Some(tools) => Ok(StagePlan::Dispatch(tools)),
                None => Err(InvalidSelection),
            },
        }
    }

    /// Runs a planned stage from the completions of its batch. A cancelled
    /// stage has the empty batch.
    pub fn run_stage(plan: StagePlan, completions: &[Completion]) -> (result: Result<
        BatchReport,
        BatchError,
    >)
        ensures
            match result {
                Ok(report) => batch_result(dispatched_tools(plan@), completions.deep_view())
                    == Ok::<Seq<OutcomeView>, BatchError>(report@),
                Err(fault) => batch_result(dispatched_tools(plan@), completions.deep_view())
                    == Err::<Seq<OutcomeView>, BatchError>(fault),
            },
    {
        match plan {
            StagePlan::Dispatch(tools) => InstallOrchestrator::run_batch(tools, completions),
            StagePlan::Cancelled => {
                let nothing: Vec<String> = Vec::new();
                assert(nothing.deep_view() =~= Seq::<Seq<char>>::empty());
                InstallOrchestrator::run_batch(nothing, completions)
            },
        }
    }
}

/// A cancelled selection leaves nothing to do: the stage is cancelled,
/// no tool is submitted, and the only report that the empty batch can yield
/// is the empty one.
pub proof fn lemma_cancel_dispatches_nothing(stage: StageView, completions: Seq<CompletionView>)
    ensures
        stage_plan(stage, true, None) == Ok::<StagePlanView, InvalidSelection>(
            StagePlanView::Cancelled,
        ),
        dispatched_tools(StagePlanView::Cancelled).len() == 0,
        batch_result(dispatched_tools(StagePlanView::Cancelled), completions) matches Ok(report)
            ==> report.len() == 0 && completions.len() == 0,
{
    crate::batch::lemma_report_in_input_order(
        dispatched_tools(StagePlanView::Cancelled),
        completions,
    );
}

/// The report of a stage has one outcome per selected tool: as many as
/// the stage has tools if it is not customized, as many as the selection
/// has positions if it is, and the outcome at each place belongs to the
/// tool that the selection names there.
pub proof fn lemma_report_has_selection_size(
    stage: StageView,
    customize: bool,
    choice: Option<Seq<int>>,
    completions: Seq<CompletionView>,
)
    requires
        stage_plan(stage, customize, choice) is Ok,
    ensures
        ({
            let tools = dispatched_tools(stage_plan(stage, customize, choice)->Ok_0);
            &&& !customize ==> tools == stage.tools
            &&& customize && choice is None ==> tools.len() == 0
            &&& customize && choice is Some ==> tools == selected_tools(stage.tools, choice->0)
                && tools.len() == choice->0.len()
            &&& batch_result(tools, completions) matches Ok(report) ==> report.len() == tools.len()
        }),
{
    crate::batch::lemma_report_in_input_order(
        dispatched_tools(stage_plan(stage, customize, choice)->Ok_0),
        completions,
    );
}

} // verus!
