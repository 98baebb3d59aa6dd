//! Carrying out a list of migration steps, one transaction each.

use vstd::prelude::*;

use super::timeline::Step;

verus! {

/// How far the steps of a run have been carried out. The first step that
/// fails ends the run.
pub struct Walk {
    steps: Vec<Step>,
    done: usize,
    failed: bool,
}

/// What a [`Walk`] stands for.
pub struct WalkState {
    /// The steps of the run.
    pub steps: Seq<Step>,
    /// How many of them have been carried out.
    pub done: nat,
    /// Whether the one after those has failed.
    pub failed: bool,
}

impl View for Walk {
    type V = WalkState;

    closed spec fn view(&self) -> WalkState {
        WalkState { steps: self.steps@, done: self.done as nat, failed: self.failed }
    }
}

impl WalkState {
    /// The step to carry out next.
    pub open spec fn next(self) -> Option<Step> {
        if self.failed || self.done >= self.steps.len() {
            None
        } else {
            Some(self.steps[self.done as int])
        }
    }

    /// The steps that were carried out, in order.
    pub open spec fn carried_out(self) -> Seq<Step> {
        self.steps.take(self.done as int)
    }
}

impl Walk {
    #[verifier::type_invariant]
    spec fn wf(self) -> bool {
        self.done <= self.steps.len()
    }

    pub fn new(steps: Vec<Step>) -> (walk: Walk)
        ensures
            walk@ == (WalkState { steps: steps@, done: 0, failed: false }),
    {
        Walk { steps, done: 0, failed: false }
    }

    /// The step to carry out next; none when the run is over.
    pub fn next_step(&self) -> (step: Option<Step>)
        ensures
            step == self@.next(),
    {
        if self.failed || self.done >= self.steps.len() {
            None
        } else {
            Some(self.steps[self.done])
        }
    }

    /// Takes in how the current step ended. After a failure no step is left.
    pub fn report(&mut self, succeeded: bool)
        requires
            old(self)@.next() is Some,
        ensures
            final(self)@ == (WalkState {
                steps: old(self)@.steps,
                done: if succeeded {
                    old(self)@.done + 1
                } else {
                    old(self)@.done
                },
                failed: !succeeded,
            }),
            !succeeded ==> final(self)@.next() is None,
            succeeded ==> final(self)@.carried_out() == old(self)@.carried_out().push(
                old(self)@.next()->0,
            ),
            !succeeded ==> final(self)@.carried_out() == old(self)@.carried_out(),
    {
        proof {
            use_type_invariant(&*self);
        }
        if succeeded {
            self.done = self.done + 1;
        } else {
            self.failed = true;
        }
        assert(succeeded ==> self@.carried_out() =~= old(self)@.carried_out().push(
            old(self)@.next()->0,
        ));
    }

    /// How many steps were carried out.
    pub fn applied_count(&self) -> (n: usize)
        ensures
            n == self@.done,
    {
        self.done
    }

    /// Whether the run ended on a failed step.
    pub fn has_failed(&self) -> (failed: bool)
        ensures
            failed == self@.failed,
    {
        self.failed
    }
}

/// Where the transaction that applies one migration stands. Each stage but the
/// last two names the command to issue next.
#[derive(Clone, Copy, PartialEq, Eq, Structural, Debug)]
pub enum ApplyStage {
    /// Begin the transaction, taking the write lock.
    Begin,
    /// Look the version up in the tracking table, inside the transaction.
    CheckApplied,
    /// Run the migration.
    Run,
    /// Record its version and description in the tracking table.
    Record,
    /// Commit.
    Commit,
    /// Roll back because the version was recorded in the meantime.
    RollbackApplied,
    /// Roll back because running or recording failed.
    RollbackFailed,
    /// The migration is in place.
    Succeeded,
    /// The migration is not in place.
    Failed,
}

/// What a command came back with.
#[derive(Clone, Copy, PartialEq, Eq, Structural, Debug)]
pub enum ApplyReply {
    Done,
    /// The tracking table holds the version (`true`) or not.
    Recorded(bool),
    Error,
}

impl ApplyStage {
    pub open spec fn is_over(self) -> bool {
        self is Succeeded || self is Failed
    }

    /// Whether `reply` can answer the command of this stage.
    pub open spec fn takes(self, reply: ApplyReply) -> bool {
        !self.is_over() && (reply is Error || (reply is Recorded <==> self is CheckApplied))
    }

    pub open spec fn spec_next(self, reply: ApplyReply) -> ApplyStage {
        match (self, reply) {
            (ApplyStage::RollbackFailed, _) => ApplyStage::Failed,
            (ApplyStage::Run, ApplyReply::Error) | (ApplyStage::Record, ApplyReply::Error) =>
                ApplyStage::RollbackFailed,
            (_, ApplyReply::Error) => ApplyStage::Failed,
            (ApplyStage::Begin, _) => ApplyStage::CheckApplied,
            (ApplyStage::CheckApplied, ApplyReply::Recorded(true)) => ApplyStage::RollbackApplied,
            (ApplyStage::CheckApplied, _) => ApplyStage::Run,
            (ApplyStage::Run, _) => ApplyStage::Record,
            (ApplyStage::Record, _) => ApplyStage::Commit,
            _ => ApplyStage::Succeeded,
        }
    }

    /// The stage after the command of this one came back with `reply`.
    pub fn next(self, reply: ApplyReply) -> (stage: ApplyStage)
        requires
            self.takes(reply),
        ensures
            stage == self.spec_next(reply),
    {
        match reply {
            ApplyReply::Error => match self {
                ApplyStage::Run | ApplyStage::Record => ApplyStage::RollbackFailed,
                _ => ApplyStage::Failed,
            },
            ApplyReply::Recorded(recorded) => if recorded {
                ApplyStage::RollbackApplied
            } else {
                ApplyStage::Run
            },
            ApplyReply::Done => match self {
                ApplyStage::Begin => ApplyStage::CheckApplied,
                ApplyStage::Run => ApplyStage::Record,
                ApplyStage::Record => ApplyStage::Commit,
                ApplyStage::RollbackFailed => ApplyStage::Failed,
                _ => ApplyStage::Succeeded,
            },
        }
    }
}

/// The stage reached from the start by a series of replies.
pub open spec fn apply_after(replies: Seq<ApplyReply>) -> ApplyStage
    decreases replies.len(),
{
    if replies.len() == 0 {
        ApplyStage::Begin
    } else {
        apply_after(replies.drop_last()).spec_next(replies.last())
    }
}

/// Each reply answers the command that was issued.
pub open spec fn replies_fit(replies: Seq<ApplyReply>) -> bool
    decreases replies.len(),
{
    replies.len() > 0 ==> replies_fit(replies.drop_last()) && apply_after(replies.drop_last()).takes(
        replies.last(),
    )
}

/// A migration counts as applied in two ways only: its version was recorded
/// already and nothing ran, or it ran, was recorded and was committed, in
/// that order, in one transaction.
pub proof fn success_means_recorded(replies: Seq<ApplyReply>)
    requires
        replies_fit(replies),
        apply_after(replies) is Succeeded,
    ensures
        replies == seq![ApplyReply::Done, ApplyReply::Recorded(true), ApplyReply::Done] || replies
            == seq![
            ApplyReply::Done,
            ApplyReply::Recorded(false),
            ApplyReply::Done,
            ApplyReply::Done,
            ApplyReply::Done,
        ],
{
    lemma_trace(replies);
}

/// Once the migration has been started, a failure before the commit is
/// answered by a rollback.
pub proof fn failure_rolls_back(replies: Seq<ApplyReply>)
    requires
        replies_fit(replies),
        replies.len() > 0,
        apply_after(replies.drop_last()) is Run || apply_after(replies.drop_last()) is Record,
        replies.last() is Error,
    ensures
        apply_after(replies) is RollbackFailed,
        forall|reply: ApplyReply| #[trigger] apply_after(replies).spec_next(reply) is Failed,
{
}

/// The replies that lead to each stage.
proof fn lemma_trace(replies: Seq<ApplyReply>)
    requires
        replies_fit(replies),
    ensures
        match apply_after(replies) {
            ApplyStage::Begin => replies == Seq::<ApplyReply>::empty(),
            ApplyStage::CheckApplied => replies == seq![ApplyReply::Done],
            ApplyStage::RollbackApplied => replies == seq![
                ApplyReply::Done,
                ApplyReply::Recorded(true),
            ],
            ApplyStage::Run => replies == seq![ApplyReply::Done, ApplyReply::Recorded(false)],
            ApplyStage::Record => replies == seq![
                ApplyReply::Done,
                ApplyReply::Recorded(false),
                ApplyReply::Done,
            ],
            ApplyStage::Commit => replies == seq![
                ApplyReply::Done,
                ApplyReply::Recorded(false),
                ApplyReply::Done,
                ApplyReply::Done,
            ],
            ApplyStage::Succeeded => replies == seq![
                ApplyReply::Done,
                ApplyReply::Recorded(true),
                ApplyReply::Done,
            ] || replies == seq![
                ApplyReply::Done,
                ApplyReply::Recorded(false),
                ApplyReply::Done,
                ApplyReply::Done,
                ApplyReply::Done,
            ],
            _ => true,
        },
    decreases replies.len(),
{
    if replies.len() > 0 {
        lemma_trace(replies.drop_last());
        assert(replies =~= replies.drop_last().push(replies.last()));
    }
}

} // verus!
