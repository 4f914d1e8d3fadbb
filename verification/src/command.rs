//! The command line's grammar: a command word, then, after one space, its argument.

use crate::error::{CommandError, ErrorView};
use crate::text::{find, find_char, same_text, slice};
use vstd::prelude::*;

verus! {

/// The commands of command mode.
#[derive(Clone, Copy, Debug, PartialEq, Eq, Structural)]
pub enum Commands {
    /// `sort`: sorts the images, by the order given as argument or else by
    /// the order in use.
    Sort,
    /// `ng` or `newglob`: loads the images that a glob matches.
    NewGlob,
    /// `?` or `help`: shows or hides the help.
    Help,
    /// `q` or `quit`: ends the program.
    Quit,
    /// `r` or `reverse`: reverses the order of the images.
    Reverse,
    /// `df` or `destfolder`: sets the folder that kept images go to.
    DestFolder,
    /// `m` or `max`: caps the number of images shown at once.
    MaximumImages,
}

impl Commands {
    /// The command that a word names, letter for letter; most have a short
    /// and a long name.
    pub open spec fn named(word: Seq<char>) -> Option<Commands> {
        if word == "sort"@ {
            Some(Commands::Sort)
        } else if word == "ng"@ || word == "newglob"@ {
            Some(Commands::NewGlob)
        } else if word == "?"@ || word == "help"@ {
            Some(Commands::Help)
        } else if word == "q"@ || word == "quit"@ {
            Some(Commands::Quit)
        } else if word == "r"@ || word == "reverse"@ {
            Some(Commands::Reverse)
        } else if word == "df"@ || word == "destfolder"@ {
            Some(Commands::DestFolder)
        } else if word == "m"@ || word == "max"@ {
            Some(Commands::MaximumImages)
        } else {
            None
        }
    }

    /// Finds the command that `s` names.
    pub fn from_str(s: &str) -> (found: Result<Commands, CommandError>)
        ensures
            match found {
                Ok(command) => Commands::named(s@) == Some(command),
                Err(error) => error@ == (ErrorView::UnknownCommand { token: s@ })
                    && Commands::named(s@) is None,
            },
    {
        if same_text(s, "sort") {
            Ok(Commands::Sort)
        } else if same_text(s, "ng") || same_text(s, "newglob") {
            Ok(Commands::NewGlob)
        } else if same_text(s, "?") || same_text(s, "help") {
            Ok(Commands::Help)
        } else if same_text(s, "q") || same_text(s, "quit") {
            Ok(Commands::Quit)
        } else if same_text(s, "r") || same_text(s, "reverse") {
            Ok(Commands::Reverse)
        } else if same_text(s, "df") || same_text(s, "destfolder") {
            Ok(Commands::DestFolder)
        } else if same_text(s, "m") || same_text(s, "max") {
            Ok(Commands::MaximumImages)
        } else {
            Err(CommandError::UnknownCommand { token: String::from_str(s) })
        }
    }
}

/// The command word of a line: what stands before its first space, or the
/// whole line where it holds no space.
pub open spec fn command_word(line: Seq<char>) -> Seq<char> {
    line.subrange(0, find(line, ' '))
}

/// The argument of a line: what stands after its first space, untrimmed, or
/// nothing where it holds no space.
pub open spec fn argument_text(line: Seq<char>) -> Seq<char> {
    if find(line, ' ') < line.len() {
        line.subrange(find(line, ' ') + 1, line.len() as int)
    } else {
        Seq::empty()
    }
}

/// Splits a line into its command and its argument.
///
/// The line is turned down exactly when its command word names no command;
/// the argument is not looked at.
pub fn parse_user_input(input: String) -> (parsed: Result<(Commands, String), CommandError>)
    ensures
        match parsed {
            Ok((command, arguments)) => Commands::named(command_word(input@)) == Some(command)
                && arguments@ == argument_text(input@),
            Err(error) => error@ == (ErrorView::UnknownCommand { token: command_word(input@) })
                && Commands::named(command_word(input@)) is None,
        },
{
    let line = input.as_str();
    let length = line.unicode_len();
    let word_end = find_char(line, ' ');
    let word = slice(line, 0, word_end);
    let command = Commands::from_str(word.as_str())?;
    let arguments = if length > word_end {
        slice(line, word_end + 1, length)
    } else {
        String::new()
    };
    Ok((command, arguments))
}

/// A line with a space is its command word, the space, and its argument;
/// one without is its command word alone. The command word holds no space.
pub proof fn lemma_line_splits(line: Seq<char>)
    ensures
        !command_word(line).contains(' '),
        line.contains(' ') ==> line == command_word(line) + seq![' '] + argument_text(line),
        !line.contains(' ') ==> line == command_word(line) && argument_text(line).len() == 0,
{
    crate::text::lemma_find_from(line, ' ', 0);
    crate::text::lemma_find_contains(line, ' ');
    let at = find(line, ' ');
    if command_word(line).contains(' ') {
        let i = choose|i: int| 0 <= i < command_word(line).len() && command_word(line)[i] == ' ';
        assert(line[i] == ' ');
    }
    if line.contains(' ') {
        assert(line =~= command_word(line) + seq![' '] + argument_text(line));
    } else {
        assert(line =~= command_word(line));
    }
}

} // verus!
