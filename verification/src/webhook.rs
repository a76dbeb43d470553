//! What a webhook delivery asks of the server.

use crate::github::{GitHubEvent, GitHubEventView};
use crate::git::branch_ref;
use crate::text::str_eq;
use vstd::prelude::*;
use vstd::string::StringExecFns;

verus! {

/// What to do about a delivery.
#[derive(Debug, Clone, Copy, PartialEq, Eq, Structural)]
pub enum WebhookAction {
    /// A ping: nothing to do.
    Ignore,
    /// An event of a type that is not handled: say so, and do nothing.
    ReportUnknown,
    /// A push: read the commit of the local head, and ask again with it.
    ReadHead,
    /// The local head is at the pushed commit already: say so.
    ReportCurrent,
    /// The push went to another branch than the one that is followed: say
    /// so.
    ReportOtherBranch,
    /// Synchronise the working copy.
    Pull,
}

/// What a delivery asks for, given the text of the local head where it has
/// been read. Only a push asks for anything. A push that names the commit
/// the local head is at needs no work; one that names any other ref than
/// that of the followed branch is for another branch. A push that names no
/// commit, or no ref, is not held back by what it does not name.
pub open spec fn webhook_action(
    event: GitHubEventView,
    head: Option<Seq<char>>,
    branch: Seq<char>,
) -> WebhookAction {
    if event.event_type == "ping"@ {
        WebhookAction::Ignore
    } else if event.event_type != "push"@ {
        WebhookAction::ReportUnknown
    } else if head is None {
        WebhookAction::ReadHead
    } else if event.new_sha == head {
        WebhookAction::ReportCurrent
    } else if event.full_ref is Some && event.full_ref->0 != branch_ref(branch) {
        WebhookAction::ReportOtherBranch
    } else {
        WebhookAction::Pull
    }
}

/// Decides what to do about a delivery. `head` is the text of the commit
/// that the local head is at, once `ReadHead` has asked for it; `branch` is
/// the branch that the working copy follows.
pub fn git_webhook(event: &GitHubEvent, head: Option<&str>, branch: &str) -> (action:
    WebhookAction)
    ensures
        action == webhook_action(event@, head.deep_view(), branch@),
{
    if str_eq(event.event_type.as_str(), "ping") {
        return WebhookAction::Ignore;
    }
    if !str_eq(event.event_type.as_str(), "push") {
        return WebhookAction::ReportUnknown;
    }
    let head = match head {
        Some(head) => head,
        None => { return WebhookAction::ReadHead; },
    };
    match &event.new_sha {
        Some(sha) => if str_eq(sha.as_str(), head) {
            return WebhookAction::ReportCurrent;
        },
        None => {},
    }
    match &event.full_ref {
        Some(full_ref) => {
            let mut followed = "refs/heads/".to_owned();
            followed.append(branch);
            if !str_eq(full_ref.as_str(), followed.as_str()) {
                return WebhookAction::ReportOtherBranch;
            }
        },
        None => {},
    }
    WebhookAction::Pull
}

} // verus!
