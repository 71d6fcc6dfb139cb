//! Counting the finished units of a running batch.
//!
//! A tracker is started with the number of units the batch holds. Every
//! finished unit advances it by one. The count never passes the total, and
//! an advance is never lost: after `k` advances the count is the smaller of
//! `k` and the total.

use vstd::prelude::*;

verus! {

/// Progress of one batch: how many units there are and how many are done.
#[derive(Debug, PartialEq, Eq)]
pub struct ProgressTracker {
    total: u64,
    completed: u64,
}

/// Mathematical model of a [`ProgressTracker`].
pub struct ProgressView {
    pub total: nat,
    pub completed: nat,
}

/// The progress of a batch of `total` units of which none is done.
pub open spec fn started(total: nat) -> ProgressView {
    ProgressView { total, completed: 0 }
}

/// The progress after one more unit finished. A batch that is complete
/// stays as it is.
pub open spec fn advanced(progress: ProgressView) -> ProgressView {
    if progress.completed < progress.total {
        ProgressView { completed: progress.completed + 1, ..progress }
    } else {
        progress
    }
}

/// The progress after `count` more units finished.
pub open spec fn advanced_by(progress: ProgressView, count: nat) -> ProgressView
    decreases count,
{
    if count == 0 {
        progress
    } else {
        advanced(advanced_by(progress, (count - 1) as nat))
    }
}

/// What is left of a tracker once its batch is over.
#[derive(Debug, PartialEq, Eq)]
pub struct FinishedProgress {
    pub completed: u64,
    pub total: u64,
    /// The closing message for the display.
    pub message: String,
}

impl View for ProgressTracker {
    type V = ProgressView;

    closed spec fn view(&self) -> ProgressView {
        ProgressView { total: self.total as nat, completed: self.completed as nat }
    }
}

impl ProgressTracker {
    #[verifier::type_invariant]
    spec fn within_total(&self) -> bool {
        self.completed <= self.total
    }

    /// A tracker for a batch of `total` units.
    pub fn start(total: u64) -> (tracker: ProgressTracker)
        ensures
            tracker@ == started(total as nat),
    {
        ProgressTracker { total, completed: 0 }
    }

    /// Registers one finished unit. Returns whether the count moved: it
    /// does unless every unit was registered already.
    pub fn advance(&mut self) -> (moved: bool)
        ensures
            final(self)@ == advanced(old(self)@),
            moved == (old(self)@.completed < old(self)@.total),
        no_unwind
    {
        proof {
            use_type_invariant(&*self);
        }
        if self.completed < self.total {
            self.completed = self.completed + 1;
            true
        } else {
            false
        }
    }

    /// The number of units of the batch.
    pub fn total(&self) -> (total: u64)
        ensures
            total == self@.total,
    {
        self.total
    }

    /// The number of finished units; never more than the total.
    pub fn completed(&self) -> (completed: u64)
        ensures
            completed == self@.completed,
            self@.completed <= self@.total,
    {
        proof {
            use_type_invariant(self);
        }
        self.completed
    }

    /// The finished units and all units, at one look.
    pub fn snapshot(&self) -> (progress: (u64, u64))
        ensures
            progress.0 == self@.completed,
            progress.1 == self@.total,
            progress.0 <= progress.1,
    {
        proof {
            use_type_invariant(self);
        }
        (self.completed, self.total)
    }

    /// Whether every unit is finished.
    pub fn is_complete(&self) -> (complete: bool)
        ensures
            complete == (self@.completed == self@.total),
    {
        self.completed == self.total
    }

    /// Ends the tracker and hands out the final count with the closing
    /// message.
    pub fn finish(self) -> (end: FinishedProgress)
        ensures
            end.completed == self@.completed,
            end.total == self@.total,
            end.completed <= end.total,
            end.message@ == "Installation complete"@,
    {
        proof {
            use_type_invariant(&self);
        }
        FinishedProgress {
            completed: self.completed,
            total: self.total,
            message: "Installation complete".to_owned(),
        }
    }
}

/// Advances are neither lost nor counted twice: `count` advances on a
/// fresh tracker leave the smaller of `count` and the total as its count.
/// So a batch of `total` units is complete after exactly `total` advances
/// and not before.
pub proof fn lemma_advances_are_counted(total: nat, count: nat)
    ensures
        advanced_by(started(total), count).total == total,
        advanced_by(started(total), count).completed == if count <= total {
            count
        } else {
            total
        },
    decreases count,
{
    if count > 0 {
        lemma_advances_are_counted(total, (count - 1) as nat);
    }
}

/// The count never passes the total, whatever the number of advances.
pub proof fn lemma_count_stays_within_total(progress: ProgressView, count: nat)
    requires
        progress.completed <= progress.total,
    ensures
        advanced_by(progress, count).completed <= advanced_by(progress, count).total,
        advanced_by(progress, count).total == progress.total,
        progress.completed <= advanced_by(progress, count).completed,
    decreases count,
{
    if count > 0 {
        lemma_count_stays_within_total(progress, (count - 1) as nat);
    }
}

} // verus!
