//! The chat command protocol: `@<bot-name> format [--amend]`.
use vstd::prelude::*;
use vstd::string::*;
use crate::select::views;
use crate::text::{joined, has_prefix, starts_with, str_eq};

verus! {

/// The words that shell_words makes of `s`, or `None` where it reports a
/// quoting error.
pub uninterp spec fn shell_split(s: Seq<char>) -> Option<Seq<Seq<char>>>;

/// Relies on shell_words::split: it splits `s` into shell words, honoring
/// quotes and escapes, or fails on an unclosed quote; the result depends on
/// `s` alone.
#[verifier::external_body]
fn split_words(s: &str) -> (r: Option<Vec<String>>)
    ensures
        r matches Some(v) ==> shell_split(s@) == Some(views(v@)),
        r is None ==> shell_split(s@) is None,
{
    shell_words::split(s).ok()
}

/// The one verb the bot knows.
#[derive(Clone, Copy, Debug, PartialEq, Eq, Structural)]
pub enum Verb {
    Format,
}

/// A well-formed command addressed to the bot.
#[derive(Clone, Copy, Debug, PartialEq, Eq, Structural)]
pub struct BotCommand {
    pub verb: Verb,
    pub amend: bool,
}

/// What becomes of a comment.
#[derive(Clone, Copy, Debug, PartialEq, Eq, Structural)]
pub enum CommandOutcome {
    /// The comment does not start with the bot's mention: not meant for it.
    Ignored,
    /// Addressed to the bot but not a valid command: usage is posted.
    Rejected,
    /// A valid command.
    Parsed(BotCommand),
}

/// `@` followed by the bot's name.
pub open spec fn mention_of(bot_name: Seq<char>) -> Seq<char> {
    seq!['@'] + bot_name
}

pub open spec fn format_word() -> Seq<char> {
    seq!['f', 'o', 'r', 'm', 'a', 't']
}

pub open spec fn amend_flag() -> Seq<char> {
    seq!['-', '-', 'a', 'm', 'e', 'n', 'd']
}

/// The grammar over the words of a comment. The first word is the mention
/// itself; then comes the verb `format`, optionally followed by `--amend`.
pub open spec fn command_of_words(words: Seq<Seq<char>>) -> CommandOutcome {
    if words.len() == 2 && words[1] == format_word() {
        CommandOutcome::Parsed(BotCommand { verb: Verb::Format, amend: false })
    } else if words.len() == 3 && words[1] == format_word() && words[2] == amend_flag() {
        CommandOutcome::Parsed(BotCommand { verb: Verb::Format, amend: true })
    } else {
        CommandOutcome::Rejected
    }
}

/// What a comment `body` means to the bot called `bot_name`.
pub open spec fn command_of(body: Seq<char>, bot_name: Seq<char>) -> CommandOutcome {
    if !has_prefix(body, mention_of(bot_name)) {
        CommandOutcome::Ignored
    } else {
        match shell_split(body) {
            Some(words) => command_of_words(words),
            None => CommandOutcome::Rejected,
        }
    }
}

/// Matches the words of a comment against the command grammar.
pub fn parse_words(words: &Vec<String>) -> (r: CommandOutcome)
    ensures
        r == command_of_words(views(words@)),
{
    proof {
        reveal_strlit("format");
        reveal_strlit("--amend");
        assert("format"@ =~= format_word());
        assert("--amend"@ =~= amend_flag());
    }
    let ghost w = views(words@);
    assert(w.len() == words@.len());
    if words.len() < 2 || words.len() > 3 {
        return CommandOutcome::Rejected;
    }
    assert(w[1] == words@[1]@);
    if !str_eq(words[1].as_str(), "format") {
        return CommandOutcome::Rejected;
    }
    if words.len() == 2 {
        return CommandOutcome::Parsed(BotCommand { verb: Verb::Format, amend: false });
    }
    assert(w[2] == words@[2]@);
    if str_eq(words[2].as_str(), "--amend") {
        CommandOutcome::Parsed(BotCommand { verb: Verb::Format, amend: true })
    } else {
        CommandOutcome::Rejected
    }
}

/// The mention that a comment for the bot starts with.
pub fn mention(bot_name: &str) -> (r: String)
    ensures
        r@ == mention_of(bot_name@),
{
    proof {
        reveal_strlit("@");
    }
    joined("@", bot_name)
}

/// Understands a comment addressed to the bot called `bot_name`.
pub fn parse_command(body: &str, bot_name: &str) -> (r: CommandOutcome)
    ensures
        r == command_of(body@, bot_name@),
{
    let m = mention(bot_name);
    if !starts_with(body, m.as_str()) {
        return CommandOutcome::Ignored;
    }
    match split_words(body) {
        Some(words) => parse_words(&words),
        None => CommandOutcome::Rejected,
    }
}

/// The usage block posted back when a command is rejected.
pub open spec fn usage_of(bot_name: Seq<char>) -> Seq<char> {
    "```\nUSAGE:\n    @"@ + bot_name
        + " format [--amend]\n\nFLAGS:\n    --amend Amends the previous commit with formatting\n```"@
}

/// The usage block, in a fenced code block, for the bot called `bot_name`.
pub fn usage(bot_name: &str) -> (r: String)
    ensures
        r@ == usage_of(bot_name@),
{
    let r = joined("```\nUSAGE:\n    @", bot_name);
    let r = r.concat(
        " format [--amend]\n\nFLAGS:\n    --amend Amends the previous commit with formatting\n```",
    );
    r
}

} // verus!
