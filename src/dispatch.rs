//! The run as a state machine: each outside step (a fetch, a clone, the
//! formatters, the diff, a git command) is an action for the caller to
//! perform, and its result comes back as feedback that decides the next one.
use vstd::prelude::*;
use vstd::string::*;
use crate::command::{command_of, mention_of, usage_of, CommandOutcome};
use crate::event::{
    branch_of, check_clone, command_depth, plan_command, triage_comment, CommandPlan,
    CommentTriage, IssueCommentEvent, PullRequest, PushEvent,
};
use crate::git::{check_exit_code, diff_code, diff_outcome, reconcile, reconcile_steps, CloneRequest, GitStep};
use crate::text::has_prefix;

verus! {

/// The two pipelines.
#[derive(Clone, Copy, Debug, PartialEq, Eq, Structural)]
pub enum Mode {
    /// Push-triggered: the exit code reports formatting drift.
    Check,
    /// Comment-triggered: the drift is committed and pushed.
    Command,
}

/// Where a run stands: the action of each stage is under way.
#[derive(Clone, Copy, Debug, PartialEq, Eq, Structural)]
pub enum Stage {
    /// The pull request the comment was made on is being fetched.
    Fetching,
    /// The usage block is being posted.
    UsagePosted,
    Cloning,
    /// The bot's git identity is being set.
    Configuring,
    Formatting,
    Diffing,
    /// Git step `i - 1` of the chosen steps is running.
    Committing(usize),
    Finished,
}

/// What the caller is asked to do next.
#[derive(Clone, Debug)]
pub enum Action {
    FetchPullRequest(String),
    PostUsage { comments_url: String, body: String },
    Clone(CloneRequest),
    ConfigureIdentity,
    /// Run every formatter job, and come back only when all have ended.
    FormatAll,
    /// Run `git diff --exit-code` against HEAD.
    Diff,
    Git(GitStep),
    /// End the process with this code.
    Exit(i32),
}

/// What the caller reports after performing an action.
#[derive(Clone, Debug)]
pub enum Feedback {
    /// The action succeeded.
    Done,
    /// The fetched pull request.
    PullRequest(PullRequest),
    /// The exit status of the diff, if the process had one.
    DiffExit(Option<i32>),
}

/// The state of one run.
#[derive(Debug)]
pub struct Dispatcher {
    pub mode: Mode,
    pub stage: Stage,
    pub amend: bool,
    pub steps: Vec<GitStep>,
    pub bot_name: String,
    pub comment: String,
}

/// The next stage, action and git steps, for every stage but `Fetching`.
/// Feedback that does not fit the stage ends the run as a failure.
pub open spec fn advance(
    mode: Mode,
    stage: Stage,
    amend: bool,
    steps: Seq<GitStep>,
    fb: Feedback,
) -> (Stage, Action, Seq<GitStep>) {
    match stage {
        Stage::UsagePosted if fb is Done => (Stage::Finished, Action::Exit(1), steps),
        Stage::Cloning if fb is Done => if mode is Command {
            (Stage::Configuring, Action::ConfigureIdentity, steps)
        } else {
            (Stage::Formatting, Action::FormatAll, steps)
        },
        Stage::Configuring if fb is Done => (Stage::Formatting, Action::FormatAll, steps),
        Stage::Formatting if fb is Done => (Stage::Diffing, Action::Diff, steps),
        Stage::Diffing if fb is DiffExit => {
            let code = diff_code(fb->DiffExit_0);
            if mode is Check {
                (Stage::Finished, Action::Exit(code), steps)
            } else {
                let chosen = reconcile_steps(code != 0, amend);
                if chosen.len() == 0 {
                    (Stage::Finished, Action::Exit(0), chosen)
                } else {
                    (Stage::Committing(1), Action::Git(chosen[0]), chosen)
                }
            }
        },
        Stage::Committing(i) if fb is Done => if i < steps.len() {
            (Stage::Committing((i + 1) as usize), Action::Git(steps[i as int]), steps)
        } else {
            (Stage::Finished, Action::Exit(0), steps)
        },
        _ => (Stage::Finished, Action::Exit(1), steps),
    }
}

impl Dispatcher {
    /// Starts check mode on a push: the pushed branch is cloned first.
    pub fn start_check(event: &PushEvent) -> (r: (Dispatcher, Action))
        ensures
            r.0.mode is Check,
            r.0.stage is Cloning,
            r.0.steps@.len() == 0,
            r.1 matches Action::Clone(req) && req.full_name@ == event.full_name@ && req.branch@
                == branch_of(event.git_ref@) && req.depth == 1,
    {
        let d = Dispatcher {
            mode: Mode::Check,
            stage: Stage::Cloning,
            amend: false,
            steps: Vec::new(),
            bot_name: String::new(),
            comment: String::new(),
        };
        (d, Action::Clone(check_clone(event)))
    }

    /// Starts command mode on a comment: a comment that does not mention the
    /// bot first, or that is not on a pull request, ends the run as a
    /// failure; otherwise the pull request is fetched.
    pub fn start_command(bot_name: &str, event: &IssueCommentEvent) -> (r: (Dispatcher, Action))
        ensures
            r.0.mode is Command,
            r.0.bot_name@ == bot_name@,
            r.0.comment@ == event.body@,
            r.0.steps@.len() == 0,
            !has_prefix(event.body@, mention_of(bot_name@)) || event.pull_request_url is None
                ==> r.0.stage is Finished && r.1 matches Action::Exit(1),
            has_prefix(event.body@, mention_of(bot_name@)) ==> (event.pull_request_url matches Some(
                url,
            ) ==> (r.0.stage is Fetching && (r.1 matches Action::FetchPullRequest(u) && u@ == url@))),
    {
        let mut d = Dispatcher {
            mode: Mode::Command,
            stage: Stage::Finished,
            amend: false,
            steps: Vec::new(),
            bot_name: String::from_str(bot_name),
            comment: String::from_str(event.body.as_str()),
        };
        match triage_comment(bot_name, event) {
            CommentTriage::FetchPullRequest(url) => {
                d.stage = Stage::Fetching;
                (d, Action::FetchPullRequest(url))
            },
            _ => (d, Action::Exit(1)),
        }
    }

    /// Takes the result of the last action and returns the next one.
    pub fn next(&mut self, fb: Feedback) -> (r: Action)
        ensures
            final(self).mode == old(self).mode,
            final(self).bot_name@ == old(self).bot_name@,
            final(self).comment@ == old(self).comment@,
            !(old(self).stage is Fetching) ==> final(self).amend == old(self).amend && (
            final(self).stage,
            r,
            final(self).steps@,
            ) == advance(old(self).mode, old(self).stage, old(self).amend, old(self).steps@, fb),
            old(self).stage is Fetching ==> final(self).steps@ == old(self).steps@,
            old(self).stage is Fetching && !(fb is PullRequest) ==> final(self).stage is Finished
                && r matches Action::Exit(1),
            old(self).stage is Fetching ==> (fb matches Feedback::PullRequest(pr) ==> match command_of(
                old(self).comment@,
                old(self).bot_name@,
            ) {
                CommandOutcome::Ignored => final(self).stage is Finished && r matches Action::Exit(1),
                CommandOutcome::Rejected => final(self).stage is UsagePosted && (r matches Action::PostUsage {
                    comments_url,
                    body,
                } && comments_url@ == pr.comments_url@ && body@ == usage_of(old(self).bot_name@)),
                CommandOutcome::Parsed(c) => final(self).stage is Cloning && final(self).amend
                    == c.amend && (r matches Action::Clone(req) && req.full_name@
                    == pr.head_full_name@ && req.branch@ == pr.head_ref@ && req.depth
                    == command_depth(c.amend)),
            }),
    {
        match self.stage {
            Stage::Fetching => {
                match fb {
                    Feedback::PullRequest(pr) => {
                        match plan_command(self.bot_name.as_str(), self.comment.as_str(), &pr) {
                            CommandPlan::Ignore => {
                                self.stage = Stage::Finished;
                                Action::Exit(1)
                            },
                            CommandPlan::PostUsage { comments_url, body } => {
                                self.stage = Stage::UsagePosted;
                                Action::PostUsage { comments_url, body }
                            },
                            CommandPlan::Run { clone, amend } => {
                                self.stage = Stage::Cloning;
                                self.amend = amend;
                                Action::Clone(clone)
                            },
                        }
                    },
                    _ => {
                        self.stage = Stage::Finished;
                        Action::Exit(1)
                    },
                }
            },
            Stage::UsagePosted if matches!(fb, Feedback::Done) => {
                self.stage = Stage::Finished;
                Action::Exit(1)
            },
            Stage::Cloning if matches!(fb, Feedback::Done) => {
                match self.mode {
                    Mode::Command => {
                        self.stage = Stage::Configuring;
                        Action::ConfigureIdentity
                    },
                    Mode::Check => {
                        self.stage = Stage::Formatting;
                        Action::FormatAll
                    },
                }
            },
            Stage::Configuring if matches!(fb, Feedback::Done) => {
                self.stage = Stage::Formatting;
                Action::FormatAll
            },
            Stage::Formatting if matches!(fb, Feedback::Done) => {
                self.stage = Stage::Diffing;
                Action::Diff
            },
            Stage::Diffing if matches!(fb, Feedback::DiffExit(_)) => {
                let code = match fb {
                    Feedback::DiffExit(c) => c,
                    _ => None,
                };
                match self.mode {
                    Mode::Check => {
                        self.stage = Stage::Finished;
                        Action::Exit(check_exit_code(code))
                    },
                    Mode::Command => {
                        let outcome = diff_outcome(code);
                        self.steps = reconcile(outcome.changed, self.amend);
                        if self.steps.len() == 0 {
                            self.stage = Stage::Finished;
                            Action::Exit(0)
                        } else {
                            self.stage = Stage::Committing(1);
                            Action::Git(self.steps[0])
                        }
                    },
                }
            },
            Stage::Committing(i) if matches!(fb, Feedback::Done) => {
                if i < self.steps.len() {
                    self.stage = Stage::Committing(i + 1);
                    Action::Git(self.steps[i])
                } else {
                    self.stage = Stage::Finished;
                    Action::Exit(0)
                }
            },
            _ => {
                self.stage = Stage::Finished;
                Action::Exit(1)
            },
        }
    }
}

/// Command mode after the diff: an unchanged tree ends the run with success
/// and no git step, whatever `amend` says; a changed tree runs exactly a new
/// commit then a plain push, or with `amend` exactly an amended commit then a
/// forced push, and then ends the run with success.
pub proof fn lemma_commit_strategy(code: Option<i32>, amend: bool, steps: Seq<GitStep>)
    ensures
        ({
            let (s1, a1, chosen) = advance(Mode::Command, Stage::Diffing, amend, steps, Feedback::DiffExit(code));
            let (s2, a2, _c2) = advance(Mode::Command, s1, amend, chosen, Feedback::Done);
            let (s3, a3, _c3) = advance(Mode::Command, s2, amend, chosen, Feedback::Done);
            &&& diff_code(code) == 0 ==> s1 is Finished && a1 == Action::Exit(0)
            &&& diff_code(code) != 0 && !amend ==> a1 == Action::Git(GitStep::CommitAll) && a2
                == Action::Git(GitStep::Push) && s3 is Finished && a3 == Action::Exit(0)
            &&& diff_code(code) != 0 && amend ==> a1 == Action::Git(GitStep::AmendCommit) && a2
                == Action::Git(GitStep::ForcePush) && s3 is Finished && a3 == Action::Exit(0)
        }),
{
}

/// Check mode after the diff: the run ends with the diff's own exit code.
pub proof fn lemma_check_exit_forwarded(code: i32, amend: bool, steps: Seq<GitStep>)
    ensures
        advance(Mode::Check, Stage::Diffing, amend, steps, Feedback::DiffExit(Some(code)))
            == (Stage::Finished, Action::Exit(code), steps),
{
}

} // verus!
