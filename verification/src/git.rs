//! Fast-forward-only synchronisation of a working copy with one branch of
//! one remote. The decisions are made here; the caller does what each
//! decision asks of the repository and reports back what it saw.

use crate::commit::{hex, CommitId};
use vstd::prelude::*;
use vstd::string::StringExecFns;

verus! {

/// The SSH key pair that every fetch authenticates with, and the account it
/// belongs to where one is configured.
#[derive(Debug, Clone, Copy, PartialEq, Eq)]
pub struct SSHConf<'a> {
    pub username: Option<&'a str>,
    pub public_key: &'a str,
    pub private_key: &'a str,
    pub passphrase: Option<&'a str>,
}

/// Why no credential could be had.
#[derive(Debug, Clone, Copy, PartialEq, Eq, Structural)]
pub enum CredentialError {
    /// Neither the remote nor the configuration names an account.
    NoUsername,
    /// The transport could not read the key material, or refused it.
    KeyMaterial,
}

/// What a fetch authenticates with. One variant for each mechanism.
#[derive(Debug, Clone, Copy, PartialEq, Eq)]
pub enum Credential<'a> {
    /// A key pair on disk, the private key optionally under a passphrase.
    SshKey {
        username: &'a str,
        public_key: &'a str,
        private_key: &'a str,
        passphrase: Option<&'a str>,
    },
}

/// A `Credential` as plain text.
pub enum CredentialView {
    SshKey {
        username: Seq<char>,
        public_key: Seq<char>,
        private_key: Seq<char>,
        passphrase: Option<Seq<char>>,
    },
}

impl<'a> View for Credential<'a> {
    type V = CredentialView;

    open spec fn view(&self) -> CredentialView {
        match *self {
            Credential::SshKey { username, public_key, private_key, passphrase } => {
                CredentialView::SshKey {
                    username: username@,
                    public_key: public_key@,
                    private_key: private_key@,
                    passphrase: passphrase.deep_view(),
                }
            },
        }
    }
}

/// The account to authenticate as: the one the remote asks for, else the
/// configured one. An empty name is no name.
pub open spec fn resolved_username(
    remote: Option<Seq<char>>,
    configured: Option<Seq<char>>,
) -> Option<Seq<char>> {
    if remote is Some && remote->0.len() > 0 {
        remote
    } else if configured is Some && configured->0.len() > 0 {
        configured
    } else {
        None
    }
}

/// The credential for one authentication attempt: the configured key pair
/// under the resolved account, or the reason there is none.
pub open spec fn resolved_credential(
    remote: Option<Seq<char>>,
    configured: Option<Seq<char>>,
    public_key: Seq<char>,
    private_key: Seq<char>,
    passphrase: Option<Seq<char>>,
) -> Result<CredentialView, CredentialError> {
    match resolved_username(remote, configured) {
        Some(username) => Ok(
            CredentialView::SshKey { username, public_key, private_key, passphrase },
        ),
        None => Err(CredentialError::NoUsername),
    }
}

/// The name where one is given and not empty.
fn given<'a>(name: Option<&'a str>) -> (r: Option<&'a str>)
    ensures
        r.deep_view() == resolved_username(name.deep_view(), None),
{
    match name {
        Some(name) => if name.is_empty() {
            None
        } else {
            Some(name)
        },
        None => None,
    }
}

/// Resolves what one authentication attempt is made with, from the account
/// that the remote asked for, if it asked for one, and the configured key
/// pair.
///
/// Reads nothing but its arguments, so it may be called any number of times
/// during one fetch. The account of a credential is never empty.
pub fn resolve_credential<'a>(username: Option<&'a str>, ssh: &SSHConf<'a>) -> (r: Result<
    Credential<'a>,
    CredentialError,
>)
    ensures
        match resolved_credential(
            username.deep_view(),
            ssh.username.deep_view(),
            ssh.public_key@,
            ssh.private_key@,
            ssh.passphrase.deep_view(),
        ) {
            Ok(credential) => r is Ok && r->Ok_0@ == credential,
            Err(e) => r == Err::<Credential<'a>, CredentialError>(e),
        },
        r matches Ok(Credential::SshKey { username, .. }) ==> username@.len() > 0,
{
    let username = match (given(username), given(ssh.username)) {
        (Some(name), _) => name,
        (None, Some(name)) => name,
        (None, None) => { return Err(CredentialError::NoUsername); },
    };
    Ok(
        Credential::SshKey {
            username,
            public_key: ssh.public_key,
            private_key: ssh.private_key,
            passphrase: ssh.passphrase,
        },
    )
}

/// `git2::Cred`, a credential in the form that the transport takes. Nothing
/// of its inside is known here.
#[verifier::external_type_specification]
#[verifier::external_body]
pub struct ExCred(git2::Cred);

/// `git2::Error`, what libgit2 says of a call that failed.
#[verifier::external_type_specification]
#[verifier::external_body]
pub struct ExGitError(git2::Error);

/// `git2::CredentialType`, the kinds of credential that a transport is
/// ready to take.
#[verifier::external_type_specification]
#[verifier::external_body]
pub struct ExCredentialType(git2::CredentialType);

/// A text holds the character of value zero, which no C string can hold.
pub open spec fn has_nul(text: Seq<char>) -> bool {
    exists|i: int| 0 <= i < text.len() && text[i] == '\0'
}

/// The four texts of a key credential can be handed to libgit2: none of
/// them holds a character of value zero.
pub open spec fn presentable(
    username: Seq<char>,
    public_key: Seq<char>,
    private_key: Seq<char>,
    passphrase: Option<Seq<char>>,
) -> bool {
    !has_nul(username) && !has_nul(public_key) && !has_nul(private_key) && (passphrase is Some
        ==> !has_nul(passphrase->0))
}

/// `Cred::ssh_key`, with the paths of both keys. Unproved: the credential is
/// made exactly where none of the four texts holds a character of value
/// zero. The call turns each text into a C string, which fails on that
/// character alone, and libgit2 then only copies the strings. Nothing is
/// claimed of the credential itself.
#[verifier::external_body]
fn ssh_key(username: &str, public_key: &str, private_key: &str, passphrase: Option<&str>) -> (made:
    Result<git2::Cred, git2::Error>)
    ensures
        made is Ok <==> presentable(
            username@,
            public_key@,
            private_key@,
            passphrase.deep_view(),
        ),
{
    git2::Cred::ssh_key(
        username,
        Some(std::path::Path::new(public_key)),
        std::path::Path::new(private_key),
        passphrase,
    )
}

/// What becomes of the attempt to put a resolved credential in the form that
/// the transport takes: the credential where one was made, else an error
/// over the key material.
pub fn made_credential(made: Result<git2::Cred, git2::Error>) -> (r: Result<
    git2::Cred,
    CredentialError,
>)
    ensures
        match made {
            Ok(cred) => r == Ok::<git2::Cred, CredentialError>(cred),
            Err(_) => r == Err::<git2::Cred, CredentialError>(CredentialError::KeyMaterial),
        },
{
    match made {
        Ok(cred) => Ok(cred),
        Err(_) => Err(CredentialError::KeyMaterial),
    }
}

/// Answers the transport's request for a credential for the remote at
/// `url`, which may have named the account it expects. Whatever kinds of
/// credential the transport is ready to take, the answer is the configured
/// key pair under the resolved account.
///
/// Without an account there is no credential. With one, the credential is
/// made unless the account, a key path or the passphrase holds a character
/// of value zero; then the key material is at fault.
pub fn get_creds(
    _url: &str,
    username: Option<&str>,
    _cred_type: git2::CredentialType,
    ssh: &SSHConf,
) -> (r: Result<git2::Cred, CredentialError>)
    ensures
        match resolved_username(username.deep_view(), ssh.username.deep_view()) {
            Some(name) => if presentable(
                name,
                ssh.public_key@,
                ssh.private_key@,
                ssh.passphrase.deep_view(),
            ) {
                r is Ok
            } else {
                r == Err::<git2::Cred, CredentialError>(CredentialError::KeyMaterial)
            },
            None => r == Err::<git2::Cred, CredentialError>(CredentialError::NoUsername),
        },
{
    match resolve_credential(username, ssh) {
        Ok(Credential::SshKey { username, public_key, private_key, passphrase }) => {
            made_credential(ssh_key(username, public_key, private_key, passphrase))
        },
        Err(e) => Err(e),
    }
}

/// What is said of a credential that could not be had.
pub open spec fn credential_message(error: CredentialError) -> Seq<char> {
    match error {
        CredentialError::NoUsername => "no username available"@,
        CredentialError::KeyMaterial => "key material could not be used"@,
    }
}

impl CredentialError {
    /// What to say of the failure.
    pub fn message(&self) -> (message: &'static str)
        ensures
            message@ == credential_message(*self),
    {
        match self {
            CredentialError::NoUsername => "no username available",
            CredentialError::KeyMaterial => "key material could not be used",
        }
    }
}

/// The one branch of the one remote that the working copy follows.
#[derive(Debug, Clone, PartialEq, Eq)]
pub struct Tracking {
    pub remote: String,
    pub branch: String,
}

/// The full name of the ref of a local branch.
pub open spec fn branch_ref(branch: Seq<char>) -> Seq<char> {
    "refs/heads/"@ + branch
}

/// The revision that names the commit of the remote-tracking ref.
pub open spec fn remote_revision(remote: Seq<char>, branch: Seq<char>) -> Seq<char> {
    remote + "/"@ + branch + "^{commit}"@
}

/// The line that the reference log gets when the local branch is moved.
pub open spec fn move_message(branch: Seq<char>) -> Seq<char> {
    "Update local branch "@ + branch + " to match remote "@ + branch
}

impl Default for Tracking {
    /// Branch `master` of the remote `origin`.
    fn default() -> (tracking: Tracking)
        ensures
            tracking.remote@ == "origin"@,
            tracking.branch@ == "master"@,
    {
        Tracking { remote: "origin".to_owned(), branch: "master".to_owned() }
    }
}

impl Tracking {
    /// The revision to resolve for the commit of the local head.
    pub fn head_revision(&self) -> (revision: &'static str)
        ensures
            revision@ == "HEAD^{commit}"@,
    {
        "HEAD^{commit}"
    }

    /// The revision to resolve for the commit that the last fetch brought.
    pub fn remote_revision(&self) -> (revision: String)
        ensures
            revision@ == remote_revision(self.remote@, self.branch@),
    {
        let mut revision = self.remote.clone();
        revision.append("/");
        revision.append(self.branch.as_str());
        revision.append("^{commit}");
        revision
    }

    /// The full name of the ref of the followed branch, as a push names it.
    pub fn branch_ref(&self) -> (name: String)
        ensures
            name@ == branch_ref(self.branch@),
    {
        let mut name = "refs/heads/".to_owned();
        name.append(self.branch.as_str());
        name
    }

    /// The line for the reference log when the local branch is moved.
    pub fn move_message(&self) -> (message: String)
        ensures
            message@ == move_message(self.branch@),
    {
        let mut message = "Update local branch ".to_owned();
        message.append(self.branch.as_str());
        message.append(" to match remote ");
        message.append(self.branch.as_str());
        message
    }
}

/// What an inspection of the working copy found.
#[derive(Debug, Clone, Copy, PartialEq, Eq, Structural)]
pub struct TreeReport {
    /// A merge, rebase, cherry-pick or the like is under way.
    pub in_progress: bool,
    /// The index differs from `HEAD`: something is staged.
    pub staged: bool,
    /// The working tree differs from the index: a tracked file was edited.
    pub modified: bool,
    /// The index holds unresolved conflicts.
    pub conflicted: bool,
}

impl TreeReport {
    /// Nothing is pending: no edits, nothing staged, no operation under way,
    /// no conflict.
    pub open spec fn clean(self) -> bool {
        !self.in_progress && !self.staged && !self.modified && !self.conflicted
    }

    /// Whether the working copy may be synchronised.
    pub fn is_clean(&self) -> (r: bool)
        ensures
            r == self.clean(),
    {
        !self.in_progress && !self.staged && !self.modified && !self.conflicted
    }
}

/// The flags of a merge analysis, as the repository reports them.
#[derive(Debug, Clone, Copy, PartialEq, Eq, Structural)]
pub struct MergeAnalysis {
    /// A merge commit would be needed.
    pub normal: bool,
    /// Everything on the remote branch is already in the local history.
    pub up_to_date: bool,
    /// The local branch can be moved forward to the remote tip.
    pub fast_forward: bool,
    /// `HEAD` names a branch without commits.
    pub unborn: bool,
}

/// Whether the local branch can take the remote tip without a merge.
#[derive(Debug, Clone, Copy, PartialEq, Eq, Structural)]
pub enum MergeVerdict {
    UpToDate,
    FastForwardPossible,
    FastForwardImpossible,
    Unknown,
}

/// The verdict on a local head and a remote tip with the flags of their
/// analysis. Equal commits are up to date whatever the flags say. A
/// fast-forward needs its flag and no contrary one. A remote that is behind
/// or beside the local history cannot be fast-forwarded to. Anything else
/// is unknown.
pub open spec fn verdict(head: Seq<u8>, tip: Seq<u8>, flags: MergeAnalysis) -> MergeVerdict {
    if tip == head {
        MergeVerdict::UpToDate
    } else if flags.unborn {
        MergeVerdict::Unknown
    } else if flags.fast_forward {
        if flags.up_to_date {
            MergeVerdict::Unknown
        } else {
            MergeVerdict::FastForwardPossible
        }
    } else if flags.up_to_date || flags.normal {
        MergeVerdict::FastForwardImpossible
    } else {
        MergeVerdict::Unknown
    }
}

/// What the analysis after a fetch found: where `HEAD` is, where the
/// remote-tracking ref is, and how the two relate.
#[derive(Debug, Clone, PartialEq, Eq)]
pub struct Analysis {
    pub head: CommitId,
    pub tip: CommitId,
    pub flags: MergeAnalysis,
}

/// An `Analysis` over plain bytes.
pub struct AnalysisView {
    pub head: Seq<u8>,
    pub tip: Seq<u8>,
    pub flags: MergeAnalysis,
}

impl View for Analysis {
    type V = AnalysisView;

    open spec fn view(&self) -> AnalysisView {
        AnalysisView { head: self.head@, tip: self.tip@, flags: self.flags }
    }
}

impl Analysis {
    /// The verdict that this analysis supports.
    pub fn verdict(&self) -> (v: MergeVerdict)
        ensures
            v == verdict(self.head@, self.tip@, self.flags),
    {
        if self.tip.same(&self.head) {
            MergeVerdict::UpToDate
        } else if self.flags.unborn {
            MergeVerdict::Unknown
        } else if self.flags.fast_forward {
            if self.flags.up_to_date {
                MergeVerdict::Unknown
            } else {
                MergeVerdict::FastForwardPossible
            }
        } else if self.flags.up_to_date || self.flags.normal {
            MergeVerdict::FastForwardImpossible
        } else {
            MergeVerdict::Unknown
        }
    }
}

/// How a fetch failed, as the caller saw it.
#[derive(Debug, Clone, PartialEq, Eq)]
pub struct FetchFault {
    /// What `get_creds` refused with during this fetch, if it did.
    pub refused: Option<CredentialError>,
    /// The transport reported that authentication failed.
    pub authentication: bool,
    /// What the transport said.
    pub detail: String,
}

/// A `FetchFault` as plain text.
pub struct FetchFaultView {
    pub refused: Option<CredentialError>,
    pub authentication: bool,
    pub detail: Seq<char>,
}

impl View for FetchFault {
    type V = FetchFaultView;

    open spec fn view(&self) -> FetchFaultView {
        FetchFaultView {
            refused: self.refused,
            authentication: self.authentication,
            detail: self.detail@,
        }
    }
}

/// The error that a failed fetch ends in. A refusal of `get_creds` is a
/// credential error of its kind; an authentication that the transport
/// reports as failed is one over the key material; anything else is a
/// network error.
pub open spec fn fetch_error(fault: FetchFaultView) -> SyncErrorView {
    if fault.refused is Some {
        SyncErrorView::CredentialError(fault.refused->0, fault.detail)
    } else if fault.authentication {
        SyncErrorView::CredentialError(CredentialError::KeyMaterial, fault.detail)
    } else {
        SyncErrorView::NetworkError(fault.detail)
    }
}

/// The step of an apply that failed.
#[derive(Debug, Clone, Copy, PartialEq, Eq, Structural)]
pub enum ApplyStage {
    /// Moving the local branch to the remote tip. The branch has not moved.
    MoveBranch,
    /// Resetting index and working tree to the new `HEAD`. The branch has
    /// moved.
    Normalize,
}

/// Everything that can keep a synchronisation from completing. The texts are
/// what the repository or the transport said; the kind never depends on
/// them.
#[derive(Debug, Clone, PartialEq, Eq)]
pub enum SyncError {
    /// The path holds no usable repository, or a commit that is needed does
    /// not resolve.
    RepositoryUnavailable(String),
    /// The working copy has pending changes or an operation under way.
    NotClean,
    /// Authentication could not be attempted or was refused.
    CredentialError(CredentialError, String),
    /// The fetch failed in transport or on the remote side.
    NetworkError(String),
    /// The histories do not allow a fast-forward; the flags of the analysis
    /// say how they relate.
    FastForwardImpossible(MergeAnalysis),
    /// Moving the branch or resetting the working copy failed.
    ApplyError(ApplyStage, String),
}

/// A `SyncError` as plain text.
pub enum SyncErrorView {
    RepositoryUnavailable(Seq<char>),
    NotClean,
    CredentialError(CredentialError, Seq<char>),
    NetworkError(Seq<char>),
    FastForwardImpossible(MergeAnalysis),
    ApplyError(ApplyStage, Seq<char>),
}

impl View for SyncError {
    type V = SyncErrorView;

    open spec fn view(&self) -> SyncErrorView {
        match self {
            SyncError::RepositoryUnavailable(detail) => SyncErrorView::RepositoryUnavailable(
                detail@,
            ),
            SyncError::NotClean => SyncErrorView::NotClean,
            SyncError::CredentialError(kind, detail) => SyncErrorView::CredentialError(
                *kind,
                detail@,
            ),
            SyncError::NetworkError(detail) => SyncErrorView::NetworkError(detail@),
            SyncError::FastForwardImpossible(flags) => SyncErrorView::FastForwardImpossible(
                *flags,
            ),
            SyncError::ApplyError(stage, detail) => SyncErrorView::ApplyError(*stage, detail@),
        }
    }
}

/// How one synchronisation ended.
#[derive(Debug, Clone, PartialEq, Eq)]
pub enum SyncOutcome {
    /// The local branch was already at the remote tip.
    NoOp,
    /// The local branch was moved from `old` to `new`.
    FastForwarded { old: CommitId, new: CommitId },
    /// The synchronisation was refused before anything was changed.
    Rejected(SyncError),
    /// A step failed.
    Failed(SyncError),
}

/// A `SyncOutcome` over plain bytes and text.
pub enum SyncOutcomeView {
    NoOp,
    FastForwarded { old: Seq<u8>, new: Seq<u8> },
    Rejected(SyncErrorView),
    Failed(SyncErrorView),
}

impl View for SyncOutcome {
    type V = SyncOutcomeView;

    open spec fn view(&self) -> SyncOutcomeView {
        match self {
            SyncOutcome::NoOp => SyncOutcomeView::NoOp,
            SyncOutcome::FastForwarded { old, new } => SyncOutcomeView::FastForwarded {
                old: old@,
                new: new@,
            },
            SyncOutcome::Rejected(reason) => SyncOutcomeView::Rejected(reason@),
            SyncOutcome::Failed(error) => SyncOutcomeView::Failed(error@),
        }
    }
}

/// The text of the commit that `HEAD` resolves to, from what reading `HEAD`
/// gave: the commit, or what the repository said instead.
pub fn get_head_sha(head: Result<CommitId, String>) -> (r: Result<String, SyncError>)
    ensures
        match head {
            Ok(id) => r is Ok && r->Ok_0@ == hex(id@),
            Err(detail) => r is Err && r->Err_0@ == SyncErrorView::RepositoryUnavailable(detail@),
        },
{
    match head {
        Ok(id) => Ok(id.to_hex()),
        Err(detail) => Err(SyncError::RepositoryUnavailable(detail)),
    }
}

/// Where a synchronisation stands: what the caller was last asked to do.
#[derive(Debug, Clone, PartialEq, Eq)]
pub enum PullState {
    /// Asked to open the repository and inspect the working copy.
    Inspecting,
    /// The working copy is clean. Asked to fetch from the remote.
    Fetching,
    /// The fetch came back. Asked to analyse `HEAD` against the fetched tip.
    Analyzing,
    /// A fast-forward from `old` to `new` is possible. Asked to move the
    /// local branch to `new`.
    Moving { old: CommitId, new: CommitId },
    /// The branch is at `new`. Asked to reset index and working tree to it.
    Normalizing { old: CommitId, new: CommitId },
    /// Nothing more to do.
    Done(SyncOutcome),
}

/// A `PullState` over plain bytes and text.
pub enum PullStateView {
    Inspecting,
    Fetching,
    Analyzing,
    Moving { old: Seq<u8>, new: Seq<u8> },
    Normalizing { old: Seq<u8>, new: Seq<u8> },
    Done(SyncOutcomeView),
}

impl View for PullState {
    type V = PullStateView;

    open spec fn view(&self) -> PullStateView {
        match self {
            PullState::Inspecting => PullStateView::Inspecting,
            PullState::Fetching => PullStateView::Fetching,
            PullState::Analyzing => PullStateView::Analyzing,
            PullState::Moving { old, new } => PullStateView::Moving { old: old@, new: new@ },
            PullState::Normalizing { old, new } => PullStateView::Normalizing {
                old: old@,
                new: new@,
            },
            PullState::Done(outcome) => PullStateView::Done(outcome@),
        }
    }
}

/// What the caller saw when it did what it was asked.
#[derive(Debug, Clone, PartialEq, Eq)]
pub enum PullEvent {
    /// The repository opened; this is the condition of its working copy.
    Condition(TreeReport),
    /// The repository could not be opened or inspected.
    Unavailable(String),
    /// The fetch updated the remote-tracking refs.
    Fetched,
    /// The fetch failed.
    FetchFailed(FetchFault),
    /// `HEAD` and the remote-tracking ref resolved and were analysed.
    Analyzed(Analysis),
    /// `HEAD` or the remote-tracking ref did not resolve.
    Unresolved(String),
    /// The local branch now points at the commit asked for.
    BranchMoved,
    /// Index and working tree now match `HEAD`.
    Normalized,
    /// Moving the branch or resetting failed.
    ApplyFailed(String),
}

/// A `PullEvent` over plain bytes and text.
pub enum PullEventView {
    Condition(TreeReport),
    Unavailable(Seq<char>),
    Fetched,
    FetchFailed(FetchFaultView),
    Analyzed(AnalysisView),
    Unresolved(Seq<char>),
    BranchMoved,
    Normalized,
    ApplyFailed(Seq<char>),
}

impl View for PullEvent {
    type V = PullEventView;

    open spec fn view(&self) -> PullEventView {
        match self {
            PullEvent::Condition(report) => PullEventView::Condition(*report),
            PullEvent::Unavailable(detail) => PullEventView::Unavailable(detail@),
            PullEvent::Fetched => PullEventView::Fetched,
            PullEvent::FetchFailed(fault) => PullEventView::FetchFailed(fault@),
            PullEvent::Analyzed(analysis) => PullEventView::Analyzed(analysis@),
            PullEvent::Unresolved(detail) => PullEventView::Unresolved(detail@),
            PullEvent::BranchMoved => PullEventView::BranchMoved,
            PullEvent::Normalized => PullEventView::Normalized,
            PullEvent::ApplyFailed(detail) => PullEventView::ApplyFailed(detail@),
        }
    }
}

/// What the caller is asked to do next.
#[derive(Debug, Clone, Copy, PartialEq, Eq, Structural)]
pub enum PullAction {
    /// Open the repository and report the condition of its working copy.
    Inspect,
    /// Fetch from the remote, answering its requests for a credential with
    /// `get_creds`.
    Fetch,
    /// Resolve `HEAD` and the remote-tracking ref and analyse the merge.
    Analyze,
    /// Point the local branch at the commit that `PullState::target` gives.
    MoveBranch,
    /// Reset index and working tree to `HEAD`, discarding what the moved
    /// branch left staged.
    Normalize,
    /// Stop: the outcome is in the state.
    Finish,
}

/// The request that stands in each state.
pub open spec fn action_of(state: PullStateView) -> PullAction {
    match state {
        PullStateView::Inspecting => PullAction::Inspect,
        PullStateView::Fetching => PullAction::Fetch,
        PullStateView::Analyzing => PullAction::Analyze,
        PullStateView::Moving { .. } => PullAction::MoveBranch,
        PullStateView::Normalizing { .. } => PullAction::Normalize,
        PullStateView::Done(_) => PullAction::Finish,
    }
}

/// The commit that the local branch is to be moved to, in the one state that
/// asks for it.
pub open spec fn target_of(state: PullStateView) -> Option<Seq<u8>> {
    match state {
        PullStateView::Moving { old, new } => Some(new),
        _ => None,
    }
}

/// The outcome, once there is one.
pub open spec fn outcome_of(state: PullStateView) -> Option<SyncOutcomeView> {
    match state {
        PullStateView::Done(outcome) => Some(outcome),
        _ => None,
    }
}

/// The state after an event. Each state takes the two events that answer its
/// request, one for success and one for failure, and ends or moves one step
/// on; any other event leaves it where it is.
pub open spec fn next(state: PullStateView, event: PullEventView) -> PullStateView {
    match (state, event) {
        (PullStateView::Inspecting, PullEventView::Condition(report)) => if report.clean() {
            PullStateView::Fetching
        } else {
            PullStateView::Done(SyncOutcomeView::Rejected(SyncErrorView::NotClean))
        },
        (PullStateView::Inspecting, PullEventView::Unavailable(detail)) => PullStateView::Done(
            SyncOutcomeView::Failed(SyncErrorView::RepositoryUnavailable(detail)),
        ),
        (PullStateView::Fetching, PullEventView::Fetched) => PullStateView::Analyzing,
        (PullStateView::Fetching, PullEventView::FetchFailed(fault)) => PullStateView::Done(
            SyncOutcomeView::Failed(fetch_error(fault)),
        ),
        (PullStateView::Analyzing, PullEventView::Analyzed(found)) => match verdict(
            found.head,
            found.tip,
            found.flags,
        ) {
            MergeVerdict::UpToDate => PullStateView::Done(SyncOutcomeView::NoOp),
            MergeVerdict::FastForwardPossible => PullStateView::Moving {
                old: found.head,
                new: found.tip,
            },
            _ => PullStateView::Done(
                SyncOutcomeView::Rejected(SyncErrorView::FastForwardImpossible(found.flags)),
            ),
        },
        (PullStateView::Analyzing, PullEventView::Unresolved(detail)) => PullStateView::Done(
            SyncOutcomeView::Failed(SyncErrorView::RepositoryUnavailable(detail)),
        ),
        (PullStateView::Moving { old, new }, PullEventView::BranchMoved) => {
            PullStateView::Normalizing { old, new }
        },
        (PullStateView::Moving { .. }, PullEventView::ApplyFailed(detail)) => PullStateView::Done(
            SyncOutcomeView::Failed(SyncErrorView::ApplyError(ApplyStage::MoveBranch, detail)),
        ),
        (PullStateView::Normalizing { old, new }, PullEventView::Normalized) => {
            PullStateView::Done(SyncOutcomeView::FastForwarded { old, new })
        },
        (PullStateView::Normalizing { .. }, PullEventView::ApplyFailed(detail)) => {
            PullStateView::Done(
                SyncOutcomeView::Failed(SyncErrorView::ApplyError(ApplyStage::Normalize, detail)),
            )
        },
        (state, _) => state,
    }
}

impl FetchFault {
    /// The error that this failure of a fetch ends in.
    pub fn into_error(self) -> (error: SyncError)
        ensures
            error@ == fetch_error(self@),
    {
        match self.refused {
            Some(kind) => SyncError::CredentialError(kind, self.detail),
            None => if self.authentication {
                SyncError::CredentialError(CredentialError::KeyMaterial, self.detail)
            } else {
                SyncError::NetworkError(self.detail)
            },
        }
    }
}

impl PullState {
    /// A synchronisation of which nothing has been done yet.
    pub fn begin() -> (state: PullState)
        ensures
            state@ == PullStateView::Inspecting,
    {
        PullState::Inspecting
    }

    /// What the caller is to do in this state.
    pub fn action(&self) -> (action: PullAction)
        ensures
            action == action_of(self@),
    {
        match self {
            PullState::Inspecting => PullAction::Inspect,
            PullState::Fetching => PullAction::Fetch,
            PullState::Analyzing => PullAction::Analyze,
            PullState::Moving { .. } => PullAction::MoveBranch,
            PullState::Normalizing { .. } => PullAction::Normalize,
            PullState::Done(_) => PullAction::Finish,
        }
    }

    /// The commit to move the local branch to, while that is what is asked.
    pub fn target(&self) -> (target: Option<&CommitId>)
        ensures
            match target {
                Some(id) => target_of(self@) == Some(id@),
                None => target_of(self@) is None,
            },
    {
        match self {
            PullState::Moving { old: _, new } => Some(new),
            _ => None,
        }
    }

    /// The outcome, once the synchronisation is done; before that, the
    /// state itself is handed back.
    pub fn outcome(self) -> (r: Result<SyncOutcome, PullState>)
        ensures
            match outcome_of(self@) {
                Some(outcome) => r is Ok && r->Ok_0@ == outcome,
                None => r is Err && r->Err_0@ == self@,
            },
    {
        match self {
            PullState::Done(outcome) => Ok(outcome),
            other => Err(other),
        }
    }
}

/// Advances a synchronisation by what the caller saw, and says what to do
/// next.
///
/// The caller starts from `PullState::begin`, does what `PullState::action`
/// asks, and hands each result to `pull` until the action is `Finish`. No
/// step is retried. One repository takes one synchronisation at a time:
/// the caller serialises them.
pub fn pull(state: PullState, event: PullEvent) -> (r: (PullState, PullAction))
    ensures
        r.0@ == next(state@, event@),
        r.1 == action_of(r.0@),
{
    let after = match (state, event) {
        (PullState::Inspecting, PullEvent::Condition(report)) => if report.is_clean() {
            PullState::Fetching
        } else {
            PullState::Done(SyncOutcome::Rejected(SyncError::NotClean))
        },
        (PullState::Inspecting, PullEvent::Unavailable(detail)) => PullState::Done(
            SyncOutcome::Failed(SyncError::RepositoryUnavailable(detail)),
        ),
        (PullState::Fetching, PullEvent::Fetched) => PullState::Analyzing,
        (PullState::Fetching, PullEvent::FetchFailed(fault)) => PullState::Done(
            SyncOutcome::Failed(fault.into_error()),
        ),
        (PullState::Analyzing, PullEvent::Analyzed(found)) => match found.verdict() {
            MergeVerdict::UpToDate => PullState::Done(SyncOutcome::NoOp),
            MergeVerdict::FastForwardPossible => PullState::Moving {
                old: found.head,
                new: found.tip,
            },
            _ => PullState::Done(
                SyncOutcome::Rejected(SyncError::FastForwardImpossible(found.flags)),
            ),
        },
        (PullState::Analyzing, PullEvent::Unresolved(detail)) => PullState::Done(
            SyncOutcome::Failed(SyncError::RepositoryUnavailable(detail)),
        ),
        (PullState::Moving { old, new }, PullEvent::BranchMoved) => PullState::Normalizing {
            old,
            new,
        },
        (PullState::Moving { .. }, PullEvent::ApplyFailed(detail)) => PullState::Done(
            SyncOutcome::Failed(SyncError::ApplyError(ApplyStage::MoveBranch, detail)),
        ),
        (PullState::Normalizing { old, new }, PullEvent::Normalized) => PullState::Done(
            SyncOutcome::FastForwarded { old, new },
        ),
        (PullState::Normalizing { .. }, PullEvent::ApplyFailed(detail)) => PullState::Done(
            SyncOutcome::Failed(SyncError::ApplyError(ApplyStage::Normalize, detail)),
        ),
        (state, _) => state,
    };
    let action = after.action();
    (after, action)
}

} // verus!
