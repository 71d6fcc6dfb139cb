//! Per-tool install outcomes and the report assembled from a batch of them.

use crate::style::{green, green_on, is_marked_line, marked_line, red, red_on};
use vstd::prelude::*;

verus! {

/// The result of handling one tool.
#[derive(Debug, PartialEq, Eq)]
pub enum InstallOutcome {
    /// The package manager already knew the tool; nothing was installed.
    AlreadyPresent,
    /// The install command ran and exited successfully.
    InstalledOk,
    /// The install command failed; the text is its diagnostic output.
    InstallFailed(String),
}

/// Mathematical model of an [`InstallOutcome`].
pub enum OutcomeView {
    AlreadyPresent,
    InstalledOk,
    InstallFailed(Seq<char>),
}

impl View for InstallOutcome {
    type V = OutcomeView;

    open spec fn view(&self) -> OutcomeView {
        match self {
            InstallOutcome::AlreadyPresent => OutcomeView::AlreadyPresent,
            InstallOutcome::InstalledOk => OutcomeView::InstalledOk,
            InstallOutcome::InstallFailed(text) => OutcomeView::InstallFailed(text@),
        }
    }
}

impl DeepView for InstallOutcome {
    type V = OutcomeView;

    open spec fn deep_view(&self) -> OutcomeView {
        self@
    }
}

impl Clone for InstallOutcome {
    fn clone(&self) -> (copy: Self)
        ensures
            copy@ == self@,
    {
        match self {
            InstallOutcome::AlreadyPresent => InstallOutcome::AlreadyPresent,
            InstallOutcome::InstalledOk => InstallOutcome::InstalledOk,
            InstallOutcome::InstallFailed(text) => InstallOutcome::InstallFailed(text.clone()),
        }
    }
}

/// Whether `line` tells the user how a tool fared: that it was there
/// already, or its name with a green check mark for an install that
/// succeeded and with a red cross for one that failed. Whether the mark is
/// painted is left open.
pub open spec fn is_status_line(tool: Seq<char>, outcome: OutcomeView, line: Seq<char>) -> bool {
    match outcome {
        OutcomeView::AlreadyPresent => line == tool + " is already installed."@,
        OutcomeView::InstalledOk => is_marked_line(tool, "\u{2713}"@, green_on(), line),
        OutcomeView::InstallFailed(_) => is_marked_line(tool, "\u{2717}"@, red_on(), line),
    }
}

/// The line that passes on the diagnostic of a failed install; there is
/// none for a tool that is in place.
pub open spec fn diagnostic_line(outcome: OutcomeView) -> Option<Seq<char>> {
    match outcome {
        OutcomeView::InstallFailed(text) => Some("Error: "@ + text),
        _ => None,
    }
}

impl InstallOutcome {
    /// The line that tells the user how `tool` fared: a green check mark
    /// after the name of a tool that was installed, a red cross after one
    /// that failed. The terminal decides whether the mark is painted.
    pub fn status_line(&self, tool: &str) -> (line: String)
        ensures
            is_status_line(tool@, self@, line@),
    {
        match self {
            InstallOutcome::AlreadyPresent => {
                let mut line = tool.to_owned();
                line.append(" is already installed.");
                line
            },
            InstallOutcome::InstalledOk => {
                proof {
                    reveal_strlit("\u{2713}");
                }
                let mark = green("\u{2713}");
                marked_line(tool, mark.as_str())
            },
            InstallOutcome::InstallFailed(_) => {
                proof {
                    reveal_strlit("\u{2717}");
                }
                let mark = red("\u{2717}");
                marked_line(tool, mark.as_str())
            },
        }
    }

    /// The line that passes on the diagnostic of a failed install.
    pub fn diagnostic_line(&self) -> (line: Option<String>)
        ensures
            match line {
                Some(text) => diagnostic_line(self@) == Some(text@),
                None => diagnostic_line(self@) is None,
            },
    {
        match self {
            InstallOutcome::InstallFailed(text) => {
                let mut line = "Error: ".to_owned();
                line.append(text.as_str());
                Some(line)
            },
            _ => None,
        }
    }

    /// Whether this outcome records a failed install.
    pub fn is_failure(&self) -> (failed: bool)
        ensures
            failed == (self@ is InstallFailed),
    {
        match self {
            InstallOutcome::InstallFailed(_) => true,
            _ => false,
        }
    }
}

/// The number of failed installs among `outcomes`.
pub open spec fn failures(outcomes: Seq<OutcomeView>) -> nat
    decreases outcomes.len(),
{
    if outcomes.len() == 0 {
        0
    } else {
        failures(outcomes.drop_last()) + if outcomes.last() is InstallFailed {
            1nat
        } else {
            0nat
        }
    }
}

/// The number of tools among `outcomes` that are in place afterwards:
/// those installed now and those that were present already.
pub open spec fn successes(outcomes: Seq<OutcomeView>) -> nat {
    (outcomes.len() - failures(outcomes)) as nat
}

/// No more installs failed than there are outcomes.
pub proof fn lemma_failures_bounded(outcomes: Seq<OutcomeView>)
    ensures
        failures(outcomes) <= outcomes.len(),
    decreases outcomes.len(),
{
    if outcomes.len() > 0 {
        lemma_failures_bounded(outcomes.drop_last());
    }
}

/// The outcomes of one batch, in the order in which the tools were
/// submitted, with the numbers of successes and failures.
#[derive(Debug, PartialEq, Eq)]
pub struct BatchReport {
    outcomes: Vec<InstallOutcome>,
    failed: usize,
}

impl View for BatchReport {
    type V = Seq<OutcomeView>;

    closed spec fn view(&self) -> Seq<OutcomeView> {
        self.outcomes.deep_view()
    }
}

impl DeepView for BatchReport {
    type V = Seq<OutcomeView>;

    open spec fn deep_view(&self) -> Seq<OutcomeView> {
        self@
    }
}

impl BatchReport {
    #[verifier::type_invariant]
    spec fn counted(&self) -> bool {
        self.failed == failures(self.outcomes.deep_view())
    }

    /// The report of a batch in which nothing was dispatched.
    pub fn empty() -> (report: BatchReport)
        ensures
            report@ == Seq::<OutcomeView>::empty(),
    {
        let outcomes: Vec<InstallOutcome> = Vec::new();
        assert(outcomes.deep_view() =~= Seq::<OutcomeView>::empty());
        BatchReport { outcomes, failed: 0 }
    }

    /// The report that holds `outcomes` in their order.
    pub fn from_outcomes(outcomes: Vec<InstallOutcome>) -> (report: BatchReport)
        ensures
            report@ == outcomes.deep_view(),
    {
        let mut failed: usize = 0;
        let mut i: usize = 0;
        let ghost all = outcomes.deep_view();
        assert(all.take(0) =~= Seq::<OutcomeView>::empty());
        while i < outcomes.len()
            invariant
                i <= outcomes.len(),
                all == outcomes.deep_view(),
                failed == failures(all.take(i as int)),
            decreases outcomes.len() - i,
        {
            proof {
                lemma_failures_bounded(all.take(i as int));
                assert(all.take(i + 1).drop_last() =~= all.take(i as int));
                assert(all.take(i + 1).last() == outcomes@[i as int]@);
            }
            if outcomes[i].is_failure() {
                failed = failed + 1;
            }
            i = i + 1;
        }
        assert(all.take(i as int) =~= all);
        BatchReport { outcomes, failed }
    }

    /// The number of outcomes.
    pub fn len(&self) -> (len: usize)
        ensures
            len == self@.len(),
    {
        self.outcomes.len()
    }

    /// Whether the report holds no outcome.
    pub fn is_empty(&self) -> (empty: bool)
        ensures
            empty == (self@.len() == 0),
    {
        self.outcomes.len() == 0
    }

    /// The outcomes, in the order of the tools they belong to.
    pub fn outcomes(&self) -> (outcomes: &Vec<InstallOutcome>)
        ensures
            outcomes.deep_view() == self@,
    {
        &self.outcomes
    }

    /// The outcome of the tool at `index`, if there is one.
    pub fn outcome(&self, index: usize) -> (outcome: Option<&InstallOutcome>)
        ensures
            match outcome {
                Some(o) => index < self@.len() && o@ == self@[index as int],
                None => index >= self@.len(),
            },
    {
        if index < self.outcomes.len() {
            Some(&self.outcomes[index])
        } else {
            None
        }
    }

    /// The number of failed installs.
    pub fn failed(&self) -> (failed: usize)
        ensures
            failed == failures(self@),
    {
        proof {
            use_type_invariant(self);
        }
        self.failed
    }

    /// The number of tools that are in place.
    pub fn succeeded(&self) -> (succeeded: usize)
        ensures
            succeeded == successes(self@),
    {
        proof {
            use_type_invariant(self);
            lemma_failures_bounded(self@);
        }
        self.outcomes.len() - self.failed
    }

    /// Gives up the report for its outcomes.
    pub fn into_outcomes(self) -> (outcomes: Vec<InstallOutcome>)
        ensures
            outcomes.deep_view() == self@,
    {
        self.outcomes
    }
}

} // verus!
