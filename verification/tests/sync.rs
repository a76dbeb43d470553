use site_sync::commit::CommitId;
use site_sync::git::{
    get_head_sha, pull, Analysis, ApplyStage, CredentialError, FetchFault, MergeAnalysis,
    PullAction, PullEvent, PullState, SyncError, SyncOutcome, TreeReport,
};

/// A repository in memory: commits are single bytes, history is a list of
/// parent links.
#[derive(Debug, Clone, PartialEq, Eq)]
struct Repo {
    parents: Vec<(u8, u8)>,
    head: u8,
    index: u8,
    remote_ref: u8,
    upstream: u8,
    edited: bool,
    done: Vec<PullAction>,
    /// The request that fails, if one does.
    failing: Option<PullAction>,
}

fn id(commit: u8) -> CommitId {
    CommitId::new(vec![commit; 20])
}

impl Repo {
    /// History: 1 <- 2 <- 3 on one line, 2 <- 4 beside it.
    fn new(head: u8, upstream: u8) -> Repo {
        Repo {
            parents: vec![(2, 1), (3, 2), (4, 2)],
            head,
            index: head,
            remote_ref: head,
            upstream,
            edited: false,
            done: Vec::new(),
            failing: None,
        }
    }

    fn ancestor(&self, a: u8, b: u8) -> bool {
        a == b || self.parents.iter().any(|&(child, parent)| child == b && self.ancestor(a, parent))
    }

    fn report(&self) -> TreeReport {
        TreeReport {
            in_progress: false,
            staged: self.index != self.head,
            modified: self.edited,
            conflicted: false,
        }
    }

    fn perform(&mut self, state: &PullState) -> PullEvent {
        let action = state.action();
        self.done.push(action);
        if self.failing == Some(action) {
            return match action {
                PullAction::Inspect => PullEvent::Unavailable("broken".to_string()),
                PullAction::Fetch => PullEvent::FetchFailed(FetchFault {
                    refused: None,
                    authentication: false,
                    detail: "broken".to_string(),
                }),
                PullAction::Analyze => PullEvent::Unresolved("broken".to_string()),
                _ => PullEvent::ApplyFailed("broken".to_string()),
            };
        }
        match action {
            PullAction::Inspect => PullEvent::Condition(self.report()),
            PullAction::Fetch => {
                self.remote_ref = self.upstream;
                PullEvent::Fetched
            }
            PullAction::Analyze => {
                let behind = self.ancestor(self.remote_ref, self.head);
                PullEvent::Analyzed(Analysis {
                    head: id(self.head),
                    tip: id(self.remote_ref),
                    flags: MergeAnalysis {
                        normal: !behind,
                        up_to_date: behind,
                        fast_forward: !behind && self.ancestor(self.head, self.remote_ref),
                        unborn: false,
                    },
                })
            }
            PullAction::MoveBranch => {
                self.head = state.target().expect("a target while moving").bytes[0];
                PullEvent::BranchMoved
            }
            PullAction::Normalize => {
                self.index = self.head;
                self.edited = false;
                PullEvent::Normalized
            }
            PullAction::Finish => unreachable!(),
        }
    }

    fn sync(&mut self) -> SyncOutcome {
        self.done.clear();
        let mut state = PullState::begin();
        loop {
            state = match state.outcome() {
                Ok(outcome) => return outcome,
                Err(state) => state,
            };
            let event = self.perform(&state);
            state = pull(state, event).0;
        }
    }

    fn current_commit(&self) -> String {
        get_head_sha(Ok(id(self.head))).expect("a head")
    }
}

#[test]
fn sync_of_equal_heads_is_noop_and_keeps_the_commit() {
    let mut repo = Repo::new(2, 2);
    let before = repo.current_commit();
    assert_eq!(repo.sync(), SyncOutcome::NoOp);
    assert_eq!(repo.current_commit(), before);
    assert_eq!(repo.done, vec![PullAction::Inspect, PullAction::Fetch, PullAction::Analyze]);
}

#[test]
fn sync_of_a_strict_ancestor_fast_forwards_to_the_remote_tip() {
    let mut repo = Repo::new(1, 3);
    assert_eq!(repo.sync(), SyncOutcome::FastForwarded { old: id(1), new: id(3) });
    assert_eq!(repo.current_commit(), id(3).to_hex());
    assert_eq!(repo.head, 3);
}

#[test]
fn sync_of_a_dirty_tree_is_rejected_and_changes_nothing() {
    let mut repo = Repo::new(1, 3);
    repo.edited = true;
    let before = repo.clone();
    assert_eq!(repo.sync(), SyncOutcome::Rejected(SyncError::NotClean));
    assert_eq!(repo.done, vec![PullAction::Inspect]);
    repo.done.clear();
    assert_eq!(repo, before);
}

#[test]
fn sync_of_a_stale_index_is_rejected_and_changes_nothing() {
    let mut repo = Repo::new(2, 3);
    repo.index = 1;
    let before = repo.clone();
    assert_eq!(repo.sync(), SyncOutcome::Rejected(SyncError::NotClean));
    repo.done.clear();
    assert_eq!(repo, before);
}

#[test]
fn sync_of_diverged_histories_is_rejected_and_keeps_the_branch() {
    let mut repo = Repo::new(3, 4);
    let before = repo.current_commit();
    let outcome = repo.sync();
    assert_eq!(
        outcome,
        SyncOutcome::Rejected(SyncError::FastForwardImpossible(MergeAnalysis {
            normal: true,
            up_to_date: false,
            fast_forward: false,
            unborn: false
        }))
    );
    assert_eq!(repo.current_commit(), before);
    assert_eq!(repo.index, 3);
    assert!(!repo.done.contains(&PullAction::MoveBranch));
    assert!(!repo.done.contains(&PullAction::Normalize));
}

#[test]
fn sync_of_a_local_branch_ahead_is_rejected_and_keeps_the_branch() {
    let mut repo = Repo::new(3, 2);
    let outcome = repo.sync();
    assert!(matches!(outcome, SyncOutcome::Rejected(SyncError::FastForwardImpossible(_))));
    assert_eq!(repo.head, 3);
    assert!(!repo.done.contains(&PullAction::MoveBranch));
}

#[test]
fn sync_twice_is_noop_twice_without_a_second_effect() {
    let mut repo = Repo::new(3, 3);
    assert_eq!(repo.sync(), SyncOutcome::NoOp);
    let after_first = repo.clone();
    assert_eq!(repo.sync(), SyncOutcome::NoOp);
    assert_eq!(repo, after_first);
}

#[test]
fn sync_after_a_fast_forward_is_noop() {
    let mut repo = Repo::new(1, 3);
    assert!(matches!(repo.sync(), SyncOutcome::FastForwarded { .. }));
    assert_eq!(repo.sync(), SyncOutcome::NoOp);
    assert_eq!(repo.head, 3);
}

#[test]
fn fast_forward_leaves_nothing_staged_against_the_new_head() {
    let mut repo = Repo::new(2, 3);
    assert!(matches!(repo.sync(), SyncOutcome::FastForwarded { .. }));
    assert_eq!(repo.index, repo.head);
    assert!(repo.report().is_clean());
    assert_eq!(repo.done.last(), Some(&PullAction::Normalize));
    let moved = repo.done.iter().position(|a| *a == PullAction::MoveBranch);
    let reset = repo.done.iter().position(|a| *a == PullAction::Normalize);
    assert!(moved.is_some() && moved < reset);
}

#[test]
fn every_sync_ends_within_five_requests() {
    for head in 1u8..=4 {
        for upstream in 1u8..=4 {
            for edited in [false, true] {
                let mut repo = Repo::new(head, upstream);
                repo.edited = edited;
                repo.sync();
                assert!(repo.done.len() <= 5);
            }
        }
    }
}

#[test]
fn refusals_and_failures_keep_to_their_kinds() {
    for head in 1u8..=4 {
        for upstream in 1u8..=4 {
            for edited in [false, true] {
                let mut repo = Repo::new(head, upstream);
                repo.edited = edited;
                match repo.sync() {
                    SyncOutcome::Rejected(reason) => assert!(matches!(
                        reason,
                        SyncError::NotClean | SyncError::FastForwardImpossible(_)
                    )),
                    SyncOutcome::Failed(error) => assert!(!matches!(
                        error,
                        SyncError::NotClean | SyncError::FastForwardImpossible(_)
                    )),
                    SyncOutcome::NoOp => assert_eq!(head, upstream),
                    SyncOutcome::FastForwarded { old, new } => {
                        assert_eq!((old, new), (id(head), id(upstream)));
                        assert!(repo.ancestor(head, upstream) && head != upstream);
                    }
                }
            }
        }
    }
}

fn failing(head: u8, upstream: u8, action: PullAction) -> Repo {
    let mut repo = Repo::new(head, upstream);
    repo.failing = Some(action);
    repo
}

#[test]
fn sync_of_an_unopenable_repository_fails_and_changes_nothing() {
    let mut repo = failing(1, 3, PullAction::Inspect);
    let before = repo.clone();
    assert_eq!(
        repo.sync(),
        SyncOutcome::Failed(SyncError::RepositoryUnavailable("broken".to_string()))
    );
    repo.done.clear();
    assert_eq!(repo, before);
}

#[test]
fn sync_with_a_failing_fetch_fails_and_changes_nothing() {
    let mut repo = failing(1, 3, PullAction::Fetch);
    let before = repo.clone();
    assert_eq!(repo.sync(), SyncOutcome::Failed(SyncError::NetworkError("broken".to_string())));
    assert_eq!(repo.done, vec![PullAction::Inspect, PullAction::Fetch]);
    repo.done.clear();
    assert_eq!(repo, before);
}

#[test]
fn sync_with_a_failing_analysis_moves_no_branch() {
    let mut repo = failing(1, 3, PullAction::Analyze);
    assert_eq!(
        repo.sync(),
        SyncOutcome::Failed(SyncError::RepositoryUnavailable("broken".to_string()))
    );
    assert_eq!((repo.head, repo.index, repo.remote_ref), (1, 1, 3));
}

#[test]
fn sync_with_a_failing_move_keeps_the_branch() {
    let mut repo = failing(1, 3, PullAction::MoveBranch);
    assert_eq!(
        repo.sync(),
        SyncOutcome::Failed(SyncError::ApplyError(ApplyStage::MoveBranch, "broken".to_string()))
    );
    assert_eq!((repo.head, repo.index), (1, 1));
    assert!(!repo.done.contains(&PullAction::Normalize));
}

#[test]
fn sync_with_a_failing_reset_leaves_the_index_behind() {
    let mut repo = failing(1, 3, PullAction::Normalize);
    assert_eq!(
        repo.sync(),
        SyncOutcome::Failed(SyncError::ApplyError(ApplyStage::Normalize, "broken".to_string()))
    );
    assert_eq!((repo.head, repo.index), (3, 1));
    assert!(!repo.report().is_clean());
    repo.failing = None;
    assert_eq!(repo.sync(), SyncOutcome::Rejected(SyncError::NotClean));
}

#[test]
fn the_branch_never_moves_but_forward_whatever_fails() {
    let steps = [
        None,
        Some(PullAction::Inspect),
        Some(PullAction::Fetch),
        Some(PullAction::Analyze),
        Some(PullAction::MoveBranch),
        Some(PullAction::Normalize),
    ];
    for head in 1u8..=4 {
        for upstream in 1u8..=4 {
            for edited in [false, true] {
                for step in steps {
                    let mut repo = Repo::new(head, upstream);
                    repo.edited = edited;
                    repo.failing = step;
                    let outcome = repo.sync();
                    let forward = !edited && head != upstream && repo.ancestor(head, upstream);
                    assert!(repo.head == head || (forward && repo.head == upstream));
                    if !matches!(outcome, SyncOutcome::FastForwarded { .. }) {
                        assert_eq!((repo.index, repo.edited), (head, edited));
                    }
                    assert!(!matches!(
                        outcome,
                        SyncOutcome::Failed(SyncError::CredentialError(CredentialError::NoUsername, _))
                    ));
                }
            }
        }
    }
}
