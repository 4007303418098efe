//! Command lines: how a compile or run command is split into a program and
//! its arguments.

use vstd::prelude::*;

pub mod code_runner;
pub mod remote_runner;
pub mod runnable_test_case;
pub mod schedule;

verus! {

/// The words that `shlex::split` makes of a command line, or `None` where it
/// reports the line as erroneous.
pub uninterp spec fn shlex_split(text: Seq<char>) -> Option<Seq<Seq<char>>>;

/// The views of a sequence of strings, in order.
pub open spec fn words_view(words: Seq<String>) -> Seq<Seq<char>> {
    Seq::new(words.len(), |i: int| words[i]@)
}

/// Calls `shlex::split`. The contract only gives the outcome its name: the
/// words returned, or the refusal, are those that `shlex_split` stands for.
#[verifier::external_body]
fn split_words(text: &str) -> (words: Option<Vec<String>>)
    ensures
        match words {
            Some(list) => shlex_split(text@) == Some(words_view(list@)),
            None => shlex_split(text@) is None,
        },
{
    shlex::split(text)
}

/// A program and the arguments it is started with.
#[derive(Debug, PartialEq, Eq)]
pub struct ParsedCommand {
    pub program: String,
    pub args: Vec<String>,
}

/// What a `ParsedCommand` is.
pub ghost struct CommandModel {
    pub program: Seq<char>,
    pub args: Seq<Seq<char>>,
}

impl View for ParsedCommand {
    type V = CommandModel;

    open spec fn view(&self) -> CommandModel {
        CommandModel { program: self.program@, args: words_view(self.args@) }
    }
}

/// The message for a command line without a program.
pub open spec fn empty_command_message() -> Seq<char> {
    "As of now, all compile/run command must noe be empty"@
}

/// The message for a command line that cannot be split into words.
pub open spec fn malformed_command_message() -> Seq<char> {
    "Failed to parse command:\"{command}\""@
}

/// The command that a list of words stands for, given what splitting the
/// line gave: the first word is the program, the others its arguments. An
/// empty line and a line without a word are refused, and so is one that
/// cannot be split.
pub open spec fn command_from_words(text: Seq<char>, words: Option<Seq<Seq<char>>>) -> Result<
    CommandModel,
    Seq<char>,
> {
    if text.len() == 0 {
        Err(empty_command_message())
    } else {
        match words {
            None => Err(malformed_command_message()),
            Some(list) => if list.len() == 0 {
                Err(empty_command_message())
            } else {
                Ok(CommandModel { program: list[0], args: list.subrange(1, list.len() as int) })
            },
        }
    }
}

/// The view of the outcome of parsing a command line.
pub open spec fn command_result_view(result: Result<ParsedCommand, String>) -> Result<
    CommandModel,
    Seq<char>,
> {
    match result {
        Ok(command) => Ok(command@),
        Err(message) => Err(message@),
    }
}

/// Builds the command from the words of a line that was already split.
pub fn command_from(text: &str, words: Option<Vec<String>>) -> (result: Result<
    ParsedCommand,
    String,
>)
    ensures
        command_result_view(result) == command_from_words(
            text@,
            match words {
                Some(list) => Some(words_view(list@)),
                None => None,
            },
        ),
{
    if text.is_empty() {
        return Err("As of now, all compile/run command must noe be empty".to_string());
    }
    match words {
        None => Err("Failed to parse command:\"{command}\"".to_string()),
        Some(list) => {
            let mut list = list;
            if list.len() == 0 {
                return Err("As of now, all compile/run command must noe be empty".to_string());
            }
            let ghost all = words_view(list@);
            let program = list.remove(0);
            assert(words_view(list@) =~= all.subrange(1, all.len() as int));
            Ok(ParsedCommand { program, args: list })
        },
    }
}

/// Whether a command line holds no word: it is empty, or splitting it gives
/// nothing.
pub open spec fn holds_no_word(text: Seq<char>) -> bool {
    text.len() == 0 || match shlex_split(text) {
        Some(list) => list.len() == 0,
        None => false,
    }
}

/// Tells whether a command line holds no word.
pub fn has_no_word(text: &str) -> (none: bool)
    ensures
        none == holds_no_word(text@),
{
    if text.is_empty() {
        return true;
    }
    match split_words(text) {
        Some(list) => list.len() == 0,
        None => false,
    }
}

/// Splits a command line as a shell would and takes the first word as the
/// program.
pub fn parse_command(text: &str) -> (result: Result<ParsedCommand, String>)
    ensures
        command_result_view(result) == command_from_words(text@, shlex_split(text@)),
{
    let words = split_words(text);
    command_from(text, words)
}

} // verus!
