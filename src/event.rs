//! The dispatcher's decisions for the two trigger events: a push, which is
//! checked, and a pull-request comment, which may carry a command.
use vstd::prelude::*;
use vstd::string::*;
use crate::command::{command_of, parse_command, usage, usage_of, mention_of, CommandOutcome};
use crate::git::CloneRequest;
use crate::text::{has_prefix, strip_prefix};

verus! {

pub open spec fn branch_prefix() -> Seq<char> {
    "refs/heads/"@
}

pub open spec fn tag_prefix() -> Seq<char> {
    "refs/tags/"@
}

/// The branch or tag named by a git ref: `refs/heads/` or `refs/tags/` taken
/// off; any other ref is kept as it is.
pub open spec fn branch_of(git_ref: Seq<char>) -> Seq<char> {
    if has_prefix(git_ref, branch_prefix()) {
        git_ref.subrange(branch_prefix().len() as int, git_ref.len() as int)
    } else if has_prefix(git_ref, tag_prefix()) {
        git_ref.subrange(tag_prefix().len() as int, git_ref.len() as int)
    } else {
        git_ref
    }
}

/// The branch or tag that a git ref names.
pub fn ref_to_branch(git_ref: &str) -> (r: &str)
    ensures
        r@ == branch_of(git_ref@),
{
    match strip_prefix(git_ref, "refs/heads/") {
        Some(rest) => rest,
        None => match strip_prefix(git_ref, "refs/tags/") {
            Some(rest) => rest,
            None => git_ref,
        },
    }
}

/// A push to the repository.
#[derive(Clone, Debug)]
pub struct PushEvent {
    pub git_ref: String,
    pub full_name: String,
}

/// A comment on an issue, which is a pull request when it has its URL.
#[derive(Clone, Debug)]
pub struct IssueCommentEvent {
    pub body: String,
    pub pull_request_url: Option<String>,
}

/// The parts of a pull request that a command needs.
#[derive(Clone, Debug)]
pub struct PullRequest {
    pub head_ref: String,
    pub head_full_name: String,
    pub comments_url: String,
}

/// Check mode clones the pushed branch at depth one.
pub fn check_clone(event: &PushEvent) -> (r: CloneRequest)
    ensures
        r.full_name@ == event.full_name@,
        r.branch@ == branch_of(event.git_ref@),
        r.depth == 1,
{
    CloneRequest {
        full_name: String::from_str(event.full_name.as_str()),
        branch: String::from_str(ref_to_branch(event.git_ref.as_str())),
        depth: 1,
    }
}

/// The first decision on a comment.
#[derive(Clone, Debug)]
pub enum CommentTriage {
    /// The comment does not mention the bot first: the run ends quietly,
    /// with a failing exit code.
    NotForBot,
    /// The comment is on an issue, not a pull request: a protocol error.
    NotPullRequest,
    /// The pull request at this URL is fetched next.
    FetchPullRequest(String),
}

/// Decides what to do with a comment before anything is fetched.
pub fn triage_comment(bot_name: &str, event: &IssueCommentEvent) -> (r: CommentTriage)
    ensures
        !has_prefix(event.body@, mention_of(bot_name@)) <==> r is NotForBot,
        has_prefix(event.body@, mention_of(bot_name@)) ==> match event.pull_request_url {
            None => r is NotPullRequest,
            Some(url) => r matches CommentTriage::FetchPullRequest(u) && u@ == url@,
        },
{
    let m = crate::command::mention(bot_name);
    if !crate::text::starts_with(event.body.as_str(), m.as_str()) {
        return CommentTriage::NotForBot;
    }
    match &event.pull_request_url {
        None => CommentTriage::NotPullRequest,
        Some(url) => CommentTriage::FetchPullRequest(String::from_str(url.as_str())),
    }
}

/// What a command comment on a pull request leads to.
#[derive(Clone, Debug)]
pub enum CommandPlan {
    /// The comment was not meant for the bot.
    Ignore,
    /// The usage block is posted to the pull request, then the run fails.
    PostUsage { comments_url: String, body: String },
    /// The head branch is cloned, formatted and reconciled.
    Run { clone: CloneRequest, amend: bool },
}

/// The clone depth of a command: amending needs the parent commit too.
pub open spec fn command_depth(amend: bool) -> u32 {
    if amend {
        2
    } else {
        1
    }
}

/// Plans a command given as the comment `body` on pull request `pr`.
pub fn plan_command(bot_name: &str, body: &str, pr: &PullRequest) -> (r: CommandPlan)
    ensures
        command_of(body@, bot_name@) is Ignored <==> r is Ignore,
        command_of(body@, bot_name@) is Rejected <==> r is PostUsage,
        r matches CommandPlan::PostUsage { comments_url, body: text } ==> comments_url@
            == pr.comments_url@ && text@ == usage_of(bot_name@),
        command_of(body@, bot_name@) matches CommandOutcome::Parsed(c) ==> (r matches CommandPlan::Run {
            clone,
            amend,
        } && amend == c.amend && clone.full_name@ == pr.head_full_name@ && clone.branch@
            == pr.head_ref@ && clone.depth == command_depth(c.amend)),
{
    match parse_command(body, bot_name) {
        CommandOutcome::Ignored => CommandPlan::Ignore,
        CommandOutcome::Rejected => CommandPlan::PostUsage {
            comments_url: String::from_str(pr.comments_url.as_str()),
            body: usage(bot_name),
        },
        CommandOutcome::Parsed(c) => CommandPlan::Run {
            clone: CloneRequest {
                full_name: String::from_str(pr.head_full_name.as_str()),
                branch: String::from_str(pr.head_ref.as_str()),
                depth: if c.amend {
                    2
                } else {
                    1
                },
            },
            amend: c.amend,
        },
    }
}

} // verus!
