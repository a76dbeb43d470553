//! What a synchronisation can and cannot do, proved of its steps alone and
//! then of whole synchronisations of a repository.
//!
//! The first part speaks of `next` only: whatever the caller reports, a
//! fetch follows a clean report, a move follows an analysis that allows it,
//! a reset follows the move, and an end is final.
//!
//! The second part needs a repository to speak of. Its picture of one holds
//! what a synchronisation can observe or change: where `HEAD` is, what the
//! index and the working tree reflect, where the remote-tracking ref is and
//! where the remote branch itself is. A request made of the picture is
//! carried out as a repository and a remote carry it out, or it fails and
//! leaves everything as it was.

use crate::git::{
    action_of, fetch_error, next, outcome_of, target_of, verdict, AnalysisView, ApplyStage,
    FetchFaultView, MergeAnalysis, MergeVerdict, PullAction, PullEventView, PullStateView,
    SyncErrorView, SyncOutcomeView, TreeReport,
};
use vstd::prelude::*;

verus! {

/// How far a synchronisation has come, in requests answered.
pub open spec fn rank(state: PullStateView) -> nat {
    match state {
        PullStateView::Inspecting => 0,
        PullStateView::Fetching => 1,
        PullStateView::Analyzing => 2,
        PullStateView::Moving { .. } => 3,
        PullStateView::Normalizing { .. } => 4,
        PullStateView::Done(_) => 5,
    }
}

/// A refusal names a dirty tree or an impossible fast-forward; a failure
/// names one of the other four kinds.
pub open spec fn classified(state: PullStateView) -> bool {
    match state {
        PullStateView::Done(SyncOutcomeView::Rejected(reason)) => reason is NotClean || reason
            is FastForwardImpossible,
        PullStateView::Done(SyncOutcomeView::Failed(error)) => !(error is NotClean) && !(error
            is FastForwardImpossible),
        _ => true,
    }
}

/// Every event leaves refusals and failures classified as they were meant.
pub proof fn lemma_next_classifies(state: PullStateView, event: PullEventView)
    requires
        classified(state),
    ensures
        classified(next(state, event)),
{
}

/// A fetch is asked for only of a working copy that was reported clean.
pub proof fn lemma_fetch_only_when_clean(state: PullStateView, event: PullEventView)
    requires
        !(state is Fetching),
        next(state, event) is Fetching,
    ensures
        state is Inspecting,
        event is Condition,
        event->Condition_0.clean(),
{
}

/// The local branch is asked to move only after an analysis that allows a
/// fast-forward, and only to the tip that was analysed.
pub proof fn lemma_move_only_on_fast_forward(state: PullStateView, event: PullEventView)
    requires
        !(state is Moving),
        next(state, event) is Moving,
    ensures
        state is Analyzing,
        event is Analyzed,
        verdict(event->Analyzed_0.head, event->Analyzed_0.tip, event->Analyzed_0.flags)
            == MergeVerdict::FastForwardPossible,
        target_of(next(state, event)) == Some(event->Analyzed_0.tip),
{
}

/// A reset is asked for only once the branch was reported moved.
pub proof fn lemma_normalize_only_after_move(state: PullStateView, event: PullEventView)
    requires
        !(state is Normalizing),
        next(state, event) is Normalizing,
    ensures
        state is Moving,
        event is BranchMoved,
        next(state, event) == (PullStateView::Normalizing {
            old: state->Moving_old,
            new: state->Moving_new,
        }),
{
}

/// A fast-forward is reported only once the reset was reported done, and it
/// names the commits that the move was asked with.
pub proof fn lemma_fast_forward_only_after_normalize(state: PullStateView, event: PullEventView)
    requires
        !(state is Done),
        outcome_of(next(state, event)) matches Some(SyncOutcomeView::FastForwarded { .. }),
    ensures
        state is Normalizing,
        event is Normalized,
        outcome_of(next(state, event)) == Some(
            SyncOutcomeView::FastForwarded {
                old: state->Normalizing_old,
                new: state->Normalizing_new,
            },
        ),
{
}

/// No event moves a synchronisation by more than one request, and none moves
/// it back.
pub proof fn lemma_next_moves_forward(state: PullStateView, event: PullEventView)
    ensures
        rank(state) <= rank(next(state, event)),
        next(state, event) is Done || rank(next(state, event)) <= rank(state) + 1,
{
}

/// A synchronisation that is done stays done, whatever is reported to it.
pub proof fn lemma_done_is_final(state: PullStateView, event: PullEventView)
    requires
        state is Done,
    ensures
        next(state, event) == state,
{
}

/// The state after a run of events, one after the other.
pub open spec fn replay(state: PullStateView, events: Seq<PullEventView>) -> PullStateView
    decreases events.len(),
{
    if events.len() == 0 {
        state
    } else {
        replay(next(state, events[0]), events.drop_first())
    }
}

/// Whatever is reported after the end, the outcome stands.
pub proof fn lemma_replay_keeps_outcome(state: PullStateView, events: Seq<PullEventView>)
    requires
        state is Done,
    ensures
        replay(state, events) == state,
    decreases events.len(),
{
    if events.len() > 0 {
        lemma_replay_keeps_outcome(state, events.drop_first());
    }
}

/// Once a working copy was reported not clean, no repository and no remote,
/// however they behave, get the synchronisation past the refusal: nothing
/// is fetched, moved or reset.
pub proof fn lemma_dirty_report_ends_every_run(report: TreeReport, rest: Seq<PullEventView>)
    requires
        !report.clean(),
    ensures
        replay(PullStateView::Inspecting, seq![PullEventView::Condition(report)] + rest)
            == PullStateView::Done(SyncOutcomeView::Rejected(SyncErrorView::NotClean)),
{
    let events = seq![PullEventView::Condition(report)] + rest;
    assert(events.drop_first() == rest);
    lemma_replay_keeps_outcome(
        PullStateView::Done(SyncOutcomeView::Rejected(SyncErrorView::NotClean)),
        rest,
    );
}

/// A working copy and its remote.
pub struct Repo {
    /// The commit that `HEAD`, and with it the local branch, points at.
    pub head: Seq<u8>,
    /// The commit that the index holds the tree of.
    pub index: Seq<u8>,
    /// The remote-tracking ref, as the last fetch left it.
    pub remote_ref: Seq<u8>,
    /// The tip of the tracked branch on the remote.
    pub upstream: Seq<u8>,
    /// The working tree holds edits that the index does not.
    pub edited: bool,
    /// A merge, rebase or the like is under way.
    pub in_progress: bool,
    /// The index holds unresolved conflicts.
    pub conflicted: bool,
    /// `ancestor(a, b)`: commit `a` is `b` or can be reached from `b` by
    /// parent links.
    pub ancestor: spec_fn(Seq<u8>, Seq<u8>) -> bool,
}

/// What goes wrong during one synchronisation: for each request, what its
/// failure says, if it fails. A request that fails changes nothing.
pub struct Faults {
    pub inspect: Option<Seq<char>>,
    pub fetch: Option<FetchFaultView>,
    pub analyze: Option<Seq<char>>,
    pub move_branch: Option<Seq<char>>,
    pub normalize: Option<Seq<char>>,
}

impl Faults {
    /// Nothing goes wrong.
    pub open spec fn none() -> Faults {
        Faults { inspect: None, fetch: None, analyze: None, move_branch: None, normalize: None }
    }
}

impl Repo {
    /// Ancestry is that of a history without cycles: every commit reaches
    /// itself, and no two commits reach each other.
    pub open spec fn well_formed(self) -> bool {
        &&& forall|a: Seq<u8>| #[trigger] (self.ancestor)(a, a)
        &&& forall|a: Seq<u8>, b: Seq<u8>|
            #[trigger] (self.ancestor)(a, b) && (self.ancestor)(b, a) ==> a == b
    }

    /// What an inspection reports. Something is staged where the index
    /// reflects another commit than `HEAD`.
    pub open spec fn report(self) -> TreeReport {
        TreeReport {
            in_progress: self.in_progress,
            staged: self.index != self.head,
            modified: self.edited,
            conflicted: self.conflicted,
        }
    }

    /// Nothing is pending in the working copy.
    pub open spec fn clean(self) -> bool {
        self.report().clean()
    }

    /// What a merge analysis of `HEAD` against the remote-tracking ref
    /// reports: up to date where the ref is within the local history; else a
    /// merge, which is a fast-forward where `HEAD` is within the history of
    /// the ref.
    pub open spec fn analysis(self) -> AnalysisView {
        let behind = (self.ancestor)(self.remote_ref, self.head);
        AnalysisView {
            head: self.head,
            tip: self.remote_ref,
            flags: MergeAnalysis {
                normal: !behind,
                up_to_date: behind,
                fast_forward: !behind && (self.ancestor)(self.head, self.remote_ref),
                unborn: false,
            },
        }
    }

    /// The local head is a strict ancestor of the remote tip.
    pub open spec fn behind(self) -> bool {
        (self.ancestor)(self.head, self.upstream) && self.head != self.upstream
    }

    /// The local history and that of the remote branch have diverged: each
    /// holds a commit that the other lacks.
    pub open spec fn diverged(self) -> bool {
        !(self.ancestor)(self.head, self.upstream) && !(self.ancestor)(self.upstream, self.head)
    }

    /// The repository with the remote-tracking ref at the remote tip, as a
    /// fetch leaves it.
    pub open spec fn fetched(self) -> Repo {
        Repo { remote_ref: self.upstream, ..self }
    }

    /// The repository with `HEAD` and the local branch at `target`. Index
    /// and working tree stay behind.
    pub open spec fn moved(self, target: Seq<u8>) -> Repo {
        Repo { head: target, ..self }
    }

    /// The repository with index and working tree reset to `HEAD`.
    pub open spec fn normalized(self) -> Repo {
        Repo { index: self.head, edited: false, in_progress: false, conflicted: false, ..self }
    }

    /// The repository after the request of `state` was made of it, and what
    /// the caller saw. A finished synchronisation asks for nothing, and
    /// nothing happens.
    pub open spec fn perform(self, state: PullStateView, faults: Faults) -> (Repo, PullEventView) {
        match action_of(state) {
            PullAction::Inspect => match faults.inspect {
                Some(detail) => (self, PullEventView::Unavailable(detail)),
                None => (self, PullEventView::Condition(self.report())),
            },
            PullAction::Fetch => match faults.fetch {
                Some(fault) => (self, PullEventView::FetchFailed(fault)),
                None => (self.fetched(), PullEventView::Fetched),
            },
            PullAction::Analyze => match faults.analyze {
                Some(detail) => (self, PullEventView::Unresolved(detail)),
                None => (self, PullEventView::Analyzed(self.analysis())),
            },
            PullAction::MoveBranch => match faults.move_branch {
                Some(detail) => (self, PullEventView::ApplyFailed(detail)),
                None => (self.moved(target_of(state)->0), PullEventView::BranchMoved),
            },
            PullAction::Normalize => match faults.normalize {
                Some(detail) => (self, PullEventView::ApplyFailed(detail)),
                None => (self.normalized(), PullEventView::Normalized),
            },
            PullAction::Finish => (self, PullEventView::Normalized),
        }
    }
}

/// The state and the repository after at most `steps` requests were made,
/// starting from `state`.
pub open spec fn settle(state: PullStateView, repo: Repo, faults: Faults, steps: nat) -> (
    PullStateView,
    Repo,
)
    decreases steps,
{
    if steps == 0 || state is Done {
        (state, repo)
    } else {
        let (after, event) = repo.perform(state, faults);
        settle(next(state, event), after, faults, (steps - 1) as nat)
    }
}

/// One synchronisation of a repository during which `faults` go wrong: the
/// state it ends in and the repository it leaves.
pub open spec fn sync_with(repo: Repo, faults: Faults) -> (PullStateView, Repo) {
    settle(PullStateView::Inspecting, repo, faults, 5)
}

/// One synchronisation of a repository during which nothing goes wrong.
pub open spec fn sync(repo: Repo) -> (PullStateView, Repo) {
    sync_with(repo, Faults::none())
}

/// Whatever goes wrong, a synchronisation ends within five requests, in a
/// refusal or a failure of the kinds meant for each.
pub proof fn lemma_sync_ends(repo: Repo, faults: Faults)
    ensures
        sync_with(repo, faults).0 is Done,
        classified(sync_with(repo, faults).0),
{
    reveal_with_fuel(settle, 6);
}

/// Where the local head is the remote tip, synchronisation does nothing: it
/// ends in `NoOp` and leaves `HEAD`, index and working tree as they were.
/// Only the remote-tracking ref is brought up to the remote.
pub proof fn lemma_equal_heads_noop(repo: Repo)
    requires
        repo.clean(),
        repo.head == repo.upstream,
    ensures
        sync(repo).0 == PullStateView::Done(SyncOutcomeView::NoOp),
        sync(repo).1 == repo.fetched(),
        sync(repo).1.head == repo.head,
{
    reveal_with_fuel(settle, 6);
}

/// Where the local head is a strict ancestor of the remote tip,
/// synchronisation fast-forwards: it reports the old head and the remote tip,
/// and `HEAD` is at the remote tip afterwards.
pub proof fn lemma_behind_fast_forwards(repo: Repo)
    requires
        repo.well_formed(),
        repo.clean(),
        repo.behind(),
    ensures
        sync(repo).0 == PullStateView::Done(
            SyncOutcomeView::FastForwarded { old: repo.head, new: repo.upstream },
        ),
        sync(repo).1 == repo.fetched().moved(repo.upstream).normalized(),
        sync(repo).1.head == repo.upstream,
{
    reveal_with_fuel(settle, 6);
}

/// A working copy that is not clean is refused as such, and nothing about
/// the repository changes: no fetch, no move, no reset. Nothing that could
/// go wrong later matters.
pub proof fn lemma_dirty_is_rejected(repo: Repo, faults: Faults)
    requires
        faults.inspect is None,
        !repo.clean(),
    ensures
        sync_with(repo, faults).0 == PullStateView::Done(
            SyncOutcomeView::Rejected(SyncErrorView::NotClean),
        ),
        sync_with(repo, faults).1 == repo,
{
    reveal_with_fuel(settle, 6);
}

/// Where the remote tip is not ahead of the local head and not equal to it,
/// synchronisation is refused as not fast-forwardable, with the flags of the
/// analysis, and `HEAD`, index and working tree stay as they were.
pub proof fn lemma_not_behind_is_rejected(repo: Repo)
    requires
        repo.clean(),
        repo.head != repo.upstream,
        !(repo.ancestor)(repo.head, repo.upstream),
    ensures
        sync(repo).0 == PullStateView::Done(
            SyncOutcomeView::Rejected(
                SyncErrorView::FastForwardImpossible(repo.fetched().analysis().flags),
            ),
        ),
        sync(repo).1 == repo.fetched(),
{
    reveal_with_fuel(settle, 6);
}

/// Where the histories have diverged, synchronisation is refused as not
/// fast-forwardable and the local branch stays where it was.
pub proof fn lemma_diverged_is_rejected(repo: Repo)
    requires
        repo.well_formed(),
        repo.clean(),
        repo.diverged(),
    ensures
        sync(repo).0 matches PullStateView::Done(
            SyncOutcomeView::Rejected(SyncErrorView::FastForwardImpossible(flags)),
        ) && flags.normal && !flags.fast_forward && !flags.up_to_date,
        sync(repo).1.head == repo.head,
        sync(repo).1.index == repo.index,
{
    lemma_not_behind_is_rejected(repo);
}

/// Synchronising a synchronised repository twice does nothing twice, and the
/// second time leaves the repository exactly as it found it.
pub proof fn lemma_sync_idempotent(repo: Repo)
    requires
        repo.clean(),
        repo.head == repo.upstream,
    ensures
        sync(repo).0 == PullStateView::Done(SyncOutcomeView::NoOp),
        sync(sync(repo).1).0 == PullStateView::Done(SyncOutcomeView::NoOp),
        sync(sync(repo).1).1 == sync(repo).1,
{
    lemma_equal_heads_noop(repo);
    let once = sync(repo).1;
    lemma_equal_heads_noop(once);
}

/// After a fast-forward, whatever else went wrong, nothing is staged
/// against the new `HEAD`: the reset was made, index and working tree
/// reflect the remote tip, and the working copy is clean.
pub proof fn lemma_fast_forward_leaves_clean(repo: Repo, faults: Faults)
    requires
        outcome_of(sync_with(repo, faults).0) matches Some(SyncOutcomeView::FastForwarded { .. }),
    ensures
        outcome_of(sync_with(repo, faults).0) == Some(
            SyncOutcomeView::FastForwarded { old: repo.head, new: repo.upstream },
        ),
        sync_with(repo, faults).1 == repo.fetched().moved(repo.upstream).normalized(),
        sync_with(repo, faults).1.head == repo.upstream,
        sync_with(repo, faults).1.index == sync_with(repo, faults).1.head,
        sync_with(repo, faults).1.clean(),
{
    reveal_with_fuel(settle, 6);
}

/// Whatever goes wrong, the local branch either stays where it was or goes
/// forward to the remote tip, and that only from a clean working copy.
pub proof fn lemma_head_only_goes_forward(repo: Repo, faults: Faults)
    requires
        repo.well_formed(),
    ensures
        sync_with(repo, faults).1.head == repo.head || (repo.clean() && repo.behind()
            && sync_with(repo, faults).1.head == repo.upstream),
{
    reveal_with_fuel(settle, 6);
}

/// A repository that cannot be opened fails the synchronisation as
/// unavailable and is left as it was.
pub proof fn lemma_unavailable_changes_nothing(repo: Repo, faults: Faults)
    requires
        faults.inspect is Some,
    ensures
        sync_with(repo, faults).0 == PullStateView::Done(
            SyncOutcomeView::Failed(SyncErrorView::RepositoryUnavailable(faults.inspect->0)),
        ),
        sync_with(repo, faults).1 == repo,
{
    reveal_with_fuel(settle, 6);
}

/// A fetch that fails, over credentials or in transport, fails the
/// synchronisation with the error of its kind and leaves the repository as
/// it was.
pub proof fn lemma_failed_fetch_changes_nothing(repo: Repo, faults: Faults)
    requires
        faults.inspect is None,
        repo.clean(),
        faults.fetch is Some,
    ensures
        sync_with(repo, faults).0 == PullStateView::Done(
            SyncOutcomeView::Failed(fetch_error(faults.fetch->0)),
        ),
        sync_with(repo, faults).1 == repo,
{
    reveal_with_fuel(settle, 6);
}

/// An analysis that cannot resolve its commits fails the synchronisation as
/// unavailable; only the remote-tracking ref has changed.
pub proof fn lemma_failed_analysis_changes_no_branch(repo: Repo, faults: Faults)
    requires
        faults.inspect is None,
        repo.clean(),
        faults.fetch is None,
        faults.analyze is Some,
    ensures
        sync_with(repo, faults).0 == PullStateView::Done(
            SyncOutcomeView::Failed(SyncErrorView::RepositoryUnavailable(faults.analyze->0)),
        ),
        sync_with(repo, faults).1 == repo.fetched(),
{
    reveal_with_fuel(settle, 6);
}

/// A failure to apply names the step that failed. Where the move failed,
/// the branch has not moved. Where the reset failed, the branch is at the
/// remote tip and the index still holds the old head: the working copy
/// needs a look before anything else is done to it.
pub proof fn lemma_failed_apply_names_its_step(repo: Repo, faults: Faults)
    requires
        outcome_of(sync_with(repo, faults).0) matches Some(
            SyncOutcomeView::Failed(SyncErrorView::ApplyError(_, _)),
        ),
    ensures
        outcome_of(sync_with(repo, faults).0) matches Some(
            SyncOutcomeView::Failed(SyncErrorView::ApplyError(stage, detail)),
        ) && match stage {
            ApplyStage::MoveBranch => faults.move_branch == Some(detail) && sync_with(
                repo,
                faults,
            ).1 == repo.fetched(),
            ApplyStage::Normalize => faults.normalize == Some(detail) && sync_with(repo, faults).1
                == repo.fetched().moved(repo.upstream) && !sync_with(repo, faults).1.clean(),
        },
{
    reveal_with_fuel(settle, 6);
}

/// Index and working tree are touched only by the reset that completes a
/// fast-forward: after any other end they are as they were.
pub proof fn lemma_tree_kept_unless_fast_forwarded(repo: Repo, faults: Faults)
    requires
        !(outcome_of(sync_with(repo, faults).0) matches Some(
            SyncOutcomeView::FastForwarded { .. },
        )),
    ensures
        sync_with(repo, faults).1.index == repo.index,
        sync_with(repo, faults).1.edited == repo.edited,
        sync_with(repo, faults).1.in_progress == repo.in_progress,
        sync_with(repo, faults).1.conflicted == repo.conflicted,
{
    reveal_with_fuel(settle, 6);
}

} // verus!
