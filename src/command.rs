//! The interactive command grammar: one input line, split into
//! whitespace-separated words, names exactly one command or is refused.
use vstd::prelude::*;

verus! {

/// A command of the interactive session.
pub enum DebugCommand {
    /// End the session (`quit`, `q`).
    Quit,
    /// (Re)start the target with the given arguments (`run`, `r`).
    Run { args: Vec<String> },
    /// Resume a stopped target (`continue`, `c`).
    Continue,
    /// Print the call stack of a stopped target (`backtrace`, `bt`).
    BackTrace,
    /// Print the command summary (`help`, `h`).
    Help,
}

/// Why a line names no command.
#[derive(PartialEq, Eq, Structural, Clone, Copy, Debug)]
pub enum CommandError {
    /// The line holds no word.
    Empty,
    /// The first word names no command.
    Unknown,
    /// A command that takes no arguments was given some.
    UnexpectedArgument,
}

impl CommandError {
    /// Whether the session tells the user of this refusal: a line without
    /// words is passed over in silence.
    pub fn is_reported(&self) -> (r: bool)
        ensures
            r == (*self != CommandError::Empty),
    {
        match self {
            CommandError::Empty => false,
            _ => true,
        }
    }
}

/// The mathematical value of a command: its arguments as character sequences.
pub ghost enum CommandModel {
    Quit,
    Run(Seq<Seq<char>>),
    Continue,
    BackTrace,
    Help,
}

impl View for DebugCommand {
    type V = CommandModel;

    open spec fn view(&self) -> CommandModel {
        match self {
            DebugCommand::Quit => CommandModel::Quit,
            DebugCommand::Run { args } => CommandModel::Run(args@.map_values(|a: String| a@)),
            DebugCommand::Continue => CommandModel::Continue,
            DebugCommand::BackTrace => CommandModel::BackTrace,
            DebugCommand::Help => CommandModel::Help,
        }
    }
}

/// The words of a line, as character sequences.
pub open spec fn words_view(words: Seq<String>) -> Seq<Seq<char>> {
    words.map_values(|w: String| w@)
}

/// Whether a word names a command, by its long or its short name.
pub open spec fn is_command_word(w: Seq<char>) -> bool {
    w == "run"@ || w == "r"@ || w == "quit"@ || w == "q"@ || w == "continue"@ || w == "c"@
        || w == "backtrace"@ || w == "bt"@ || w == "help"@ || w == "h"@
}

/// What a sequence of words means: the command it names, or why it names none.
pub open spec fn command_of(words: Seq<Seq<char>>) -> Result<CommandModel, CommandError> {
    if words.len() == 0 {
        Err(CommandError::Empty)
    } else {
        let head = words[0];
        let rest = words.drop_first();
        if head == "run"@ || head == "r"@ {
            Ok(CommandModel::Run(rest))
        } else if head == "quit"@ || head == "q"@ || head == "continue"@ || head == "c"@
            || head == "backtrace"@ || head == "bt"@ || head == "help"@ || head == "h"@ {
            if rest.len() != 0 {
                Err(CommandError::UnexpectedArgument)
            } else if head == "quit"@ || head == "q"@ {
                Ok(CommandModel::Quit)
            } else if head == "continue"@ || head == "c"@ {
                Ok(CommandModel::Continue)
            } else if head == "backtrace"@ || head == "bt"@ {
                Ok(CommandModel::BackTrace)
            } else {
                Ok(CommandModel::Help)
            }
        } else {
            Err(CommandError::Unknown)
        }
    }
}

/// The view of a parse result.
pub open spec fn parsed_view(r: Result<DebugCommand, CommandError>) -> Result<CommandModel, CommandError> {
    match r {
        Ok(c) => Ok(c@),
        Err(e) => Err(e),
    }
}

fn is_word(w: &String, long: &str, short: &str) -> (r: bool)
    ensures
        r == (w@ == long@ || w@ == short@),
{
    let l = long.to_owned();
    let s = short.to_owned();
    *w == l || *w == s
}

/// Reads a command from the words of a line.
pub fn parse_words(words: &Vec<String>) -> (r: Result<DebugCommand, CommandError>)
    ensures
        parsed_view(r) == command_of(words_view(words@)),
{
    let ghost ws = words_view(words@);
    if words.len() == 0 {
        return Err(CommandError::Empty);
    }
    let head = &words[0];
    assert(ws[0] == head@);
    assert(ws.drop_first() =~= words_view(words@.drop_first()));
    if is_word(head, "run", "r") {
        let mut args: Vec<String> = Vec::new();
        let mut i: usize = 1;
        while i < words.len()
            invariant
                1 <= i <= words.len(),
                args@.len() == i - 1,
                forall|k: int| 0 <= k < args@.len() ==> #[trigger] args@[k]@ == words@[k + 1]@,
            decreases words.len() - i,
        {
            args.push(words[i].clone());
            i = i + 1;
        }
        assert(args@.map_values(|a: String| a@) =~= ws.drop_first());
        return Ok(DebugCommand::Run { args });
    }
    let known = is_word(head, "quit", "q") || is_word(head, "continue", "c")
        || is_word(head, "backtrace", "bt") || is_word(head, "help", "h");
    if !known {
        return Err(CommandError::Unknown);
    }
    if words.len() != 1 {
        return Err(CommandError::UnexpectedArgument);
    }
    if is_word(head, "quit", "q") {
        Ok(DebugCommand::Quit)
    } else if is_word(head, "continue", "c") {
        Ok(DebugCommand::Continue)
    } else if is_word(head, "backtrace", "bt") {
        Ok(DebugCommand::BackTrace)
    } else {
        Ok(DebugCommand::Help)
    }
}

/// The words that `str::split_whitespace` finds in a line, in order.
pub uninterp spec fn words_of(line: Seq<char>) -> Seq<Seq<char>>;

/// Whether a character has the Unicode `White_Space` property.
pub open spec fn is_white_space(c: char) -> bool {
    ('\u{9}' <= c && c <= '\u{d}') || c == ' ' || c == '\u{85}' || c == '\u{a0}' || c == '\u{1680}'
        || ('\u{2000}' <= c && c <= '\u{200a}') || c == '\u{2028}' || c == '\u{2029}' || c
        == '\u{202f}' || c == '\u{205f}' || c == '\u{3000}'
}

/// Whether a line holds only white space (or nothing).
pub open spec fn is_blank(line: Seq<char>) -> bool {
    forall|i: int| 0 <= i < line.len() ==> is_white_space(#[trigger] line[i])
}

/// Relies on `str::split_whitespace`: the words of the line, in order, split
/// at characters with the Unicode `White_Space` property; a line of such
/// characters only, and no other, holds no word.
#[verifier::external_body]
fn split_words(line: &str) -> (r: Vec<String>)
    ensures
        words_view(r@) == words_of(line@),
        is_blank(line@) <==> r@.len() == 0,
{
    line.split_whitespace().map(|w| w.to_string()).collect()
}

/// Reads a command from an input line.
pub fn parse_line(line: &str) -> (r: Result<DebugCommand, CommandError>)
    ensures
        parsed_view(r) == command_of(words_of(line@)),
        is_blank(line@) ==> r == Err::<DebugCommand, CommandError>(CommandError::Empty),
        r matches Err(e) ==> (e != CommandError::Empty <==> !is_blank(line@)),
{
    let words = split_words(line);
    assert(words_view(words@).len() == words@.len());
    parse_words(&words)
}

/// Parsing is total: every sequence of words names a command or is refused
/// for one reason. A line without words is the only one refused as empty; a
/// `run` word always names a run, with the remaining words as arguments; a
/// recognised command word alone is never refused; and a first word that is
/// no command word is refused as unknown.
pub proof fn lemma_parse_total(words: Seq<Seq<char>>)
    ensures
        command_of(words) == Err::<CommandModel, CommandError>(CommandError::Empty) <==> words.len() == 0,
        words.len() > 0 && (words[0] == "run"@ || words[0] == "r"@) ==> command_of(words) == Ok::<
            CommandModel,
            CommandError,
        >(CommandModel::Run(words.drop_first())),
        words.len() == 1 && is_command_word(words[0]) ==> command_of(words) is Ok,
        words.len() > 0 && !is_command_word(words[0]) ==> command_of(words) == Err::<
            CommandModel,
            CommandError,
        >(CommandError::Unknown),
{
}

} // verus!
