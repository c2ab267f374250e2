//! The git side of a run: cloning, the bot's identity, the diff result and
//! the commit strategy that follows from it.
use vstd::prelude::*;
use vstd::string::*;
use crate::select::views;
use crate::text::joined;

verus! {

/// One git mutation of the commit strategy.
#[derive(Clone, Copy, Debug, PartialEq, Eq, Structural)]
pub enum GitStep {
    /// A new commit over all modified tracked files.
    CommitAll,
    /// A push that fails if the remote branch has diverged.
    Push,
    /// The last commit amended in place, its message kept.
    AmendCommit,
    /// A push that overwrites the remote branch.
    ForcePush,
}

/// The git steps that reconcile the formatted tree with the remote branch.
pub open spec fn reconcile_steps(changed: bool, amend: bool) -> Seq<GitStep> {
    if !changed {
        seq![]
    } else if !amend {
        seq![GitStep::CommitAll, GitStep::Push]
    } else {
        seq![GitStep::AmendCommit, GitStep::ForcePush]
    }
}

/// Chooses the git steps after formatting: nothing when the tree is
/// unchanged, whatever `amend` says; a new commit and a plain push; or an
/// amended commit and a forced push.
pub fn reconcile(changed: bool, amend: bool) -> (r: Vec<GitStep>)
    ensures
        r@ == reconcile_steps(changed, amend),
        !changed ==> r@.len() == 0,
        changed && !amend ==> r@ == seq![GitStep::CommitAll, GitStep::Push],
        changed && amend ==> r@ == seq![GitStep::AmendCommit, GitStep::ForcePush],
{
    let mut steps: Vec<GitStep> = Vec::new();
    if changed {
        if amend {
            steps.push(GitStep::AmendCommit);
            steps.push(GitStep::ForcePush);
        } else {
            steps.push(GitStep::CommitAll);
            steps.push(GitStep::Push);
        }
    }
    assert(steps@ =~= reconcile_steps(changed, amend));
    steps
}

/// The message of the bot's own commits.
pub open spec fn commit_message() -> Seq<char> {
    "cpp-py-formatter"@
}

/// The arguments given to git for a step.
pub open spec fn step_args_of(step: GitStep) -> Seq<Seq<char>> {
    match step {
        GitStep::CommitAll => seq!["commit"@, "-am"@, commit_message()],
        GitStep::Push => seq!["push"@],
        GitStep::AmendCommit => seq!["commit"@, "-a"@, "--amend"@, "--no-edit"@],
        GitStep::ForcePush => seq!["push"@, "--force"@],
    }
}

/// The git command line (without `git`) that carries out `step`.
pub fn step_args(step: GitStep) -> (r: Vec<String>)
    ensures
        views(r@) == step_args_of(step),
{
    let r = match step {
        GitStep::CommitAll => vec![
            String::from_str("commit"),
            String::from_str("-am"),
            String::from_str("cpp-py-formatter"),
        ],
        GitStep::Push => vec![String::from_str("push")],
        GitStep::AmendCommit => vec![
            String::from_str("commit"),
            String::from_str("-a"),
            String::from_str("--amend"),
            String::from_str("--no-edit"),
        ],
        GitStep::ForcePush => vec![String::from_str("push"), String::from_str("--force")],
    };
    assert(views(r@) =~= step_args_of(step));
    r
}

/// What the diff against HEAD reported once formatting was done.
#[derive(Clone, Copy, Debug, PartialEq, Eq, Structural)]
pub struct DiffOutcome {
    pub changed: bool,
    pub exit_code: i32,
}

/// The exit status of the diff, with a process that ended without a code
/// (killed by a signal) counted as a failure.
pub open spec fn diff_code(code: Option<i32>) -> i32 {
    match code {
        Some(c) => c,
        None => 1,
    }
}

/// Reduces the exit status of `git diff --exit-code` to an outcome: the tree
/// changed exactly when the status is not zero.
pub fn diff_outcome(code: Option<i32>) -> (r: DiffOutcome)
    ensures
        r.exit_code == diff_code(code),
        r.changed == (diff_code(code) != 0),
{
    let exit_code = match code {
        Some(c) => c,
        None => 1,
    };
    DiffOutcome { changed: exit_code != 0, exit_code }
}

/// The exit code of check mode: the diff's own status, never remapped.
pub fn check_exit_code(code: Option<i32>) -> (r: i32)
    ensures
        code matches Some(c) ==> r == c,
        code is None ==> r == 1,
{
    diff_outcome(code).exit_code
}

/// The decimal digits of `n`.
pub open spec fn decimal_of(n: nat) -> Seq<char>
    decreases n,
{
    if n < 10 {
        seq![digit_of(n)]
    } else {
        decimal_of(n / 10).push(digit_of(n % 10))
    }
}

/// The character of a digit below ten.
pub open spec fn digit_of(d: nat) -> char {
    ((d + 48) as u8) as char
}

fn digit_str(d: u32) -> (r: &'static str)
    requires
        d < 10,
    ensures
        r@ == seq![digit_of(d as nat)],
{
    proof {
        reveal_strlit("0");
        reveal_strlit("1");
        reveal_strlit("2");
        reveal_strlit("3");
        reveal_strlit("4");
        reveal_strlit("5");
        reveal_strlit("6");
        reveal_strlit("7");
        reveal_strlit("8");
        reveal_strlit("9");
    }
    let r = match d {
        0 => "0",
        1 => "1",
        2 => "2",
        3 => "3",
        4 => "4",
        5 => "5",
        6 => "6",
        7 => "7",
        8 => "8",
        _ => "9",
    };
    assert(r@ =~= seq![digit_of(d as nat)]);
    r
}

/// `n` written in decimal.
pub fn decimal(n: u32) -> (r: String)
    ensures
        r@ == decimal_of(n as nat),
    decreases n,
{
    if n < 10 {
        String::from_str(digit_str(n))
    } else {
        let head = decimal(n / 10);
        let r = head.concat(digit_str(n % 10));
        assert(r@ =~= decimal_of(n as nat));
        r
    }
}

/// A shallow clone of one branch of a repository.
#[derive(Clone, Debug)]
pub struct CloneRequest {
    pub full_name: String,
    pub branch: String,
    pub depth: u32,
}

/// The authenticated remote URL of a repository.
pub open spec fn remote_url_of(token: Seq<char>, full_name: Seq<char>) -> Seq<char> {
    "https://x-access-token:"@ + token + "@github.com/"@ + full_name + ".git"@
}

/// The git command line (without `git`) that clones the requested branch,
/// with its tags, into the current directory.
pub open spec fn clone_args_of(token: Seq<char>, req: CloneRequest) -> Seq<Seq<char>> {
    seq![
        "clone"@,
        "-b"@,
        req.branch@,
        "--tags"@,
        "--depth"@,
        decimal_of(req.depth as nat),
        remote_url_of(token, req.full_name@),
        "."@,
    ]
}

/// The authenticated remote URL of a repository.
pub fn remote_url(token: &str, full_name: &str) -> (r: String)
    ensures
        r@ == remote_url_of(token@, full_name@),
{
    let r = joined("https://x-access-token:", token);
    let r = r.concat("@github.com/");
    let r = r.concat(full_name);
    let r = r.concat(".git");
    assert(r@ =~= remote_url_of(token@, full_name@));
    r
}

/// The git command line (without `git`) for a clone request.
pub fn clone_args(token: &str, req: &CloneRequest) -> (r: Vec<String>)
    ensures
        views(r@) == clone_args_of(token@, *req),
{
    let r = vec![
        String::from_str("clone"),
        String::from_str("-b"),
        req.branch.clone(),
        String::from_str("--tags"),
        String::from_str("--depth"),
        decimal(req.depth),
        remote_url(token, req.full_name.as_str()),
        String::from_str("."),
    ];
    assert(views(r@) =~= clone_args_of(token@, *req));
    r
}

/// The e-mail address of the bot's git identity.
pub open spec fn bot_email_of(bot_name: Seq<char>) -> Seq<char> {
    bot_name + "@automation.bot"@
}

/// The e-mail address of the bot's git identity, derived from its name.
pub fn bot_email(bot_name: &str) -> (r: String)
    ensures
        r@ == bot_email_of(bot_name@),
{
    joined(bot_name, "@automation.bot")
}

/// The two git command lines (without `git`) that set the bot's identity.
pub fn identity_args(bot_name: &str) -> (r: (Vec<String>, Vec<String>))
    ensures
        views(r.0@) == seq!["config"@, "--global"@, "user.email"@, bot_email_of(bot_name@)],
        views(r.1@) == seq!["config"@, "--global"@, "user.name"@, bot_name@],
{
    let email = vec![
        String::from_str("config"),
        String::from_str("--global"),
        String::from_str("user.email"),
        bot_email(bot_name),
    ];
    let name = vec![
        String::from_str("config"),
        String::from_str("--global"),
        String::from_str("user.name"),
        String::from_str(bot_name),
    ];
    assert(views(email@) =~= seq!["config"@, "--global"@, "user.email"@, bot_email_of(bot_name@)]);
    assert(views(name@) =~= seq!["config"@, "--global"@, "user.name"@, bot_name@]);
    (email, name)
}

} // verus!
