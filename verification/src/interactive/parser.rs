//! Reading one line of an interactive session.
//!
//! A line that begins with a backslash is a command, named by what stands
//! before its first space. Any other line is content, read by the mode that
//! the session is in.

use crate::interactive::{SessionMode, SessionState};
use crate::text::{
    extend_chars, from_chars, same_chars, slice_chars, starts_with_chars, starts_with_seq,
    to_chars, trim_chars, trim_seq,
};
use vstd::prelude::*;

verus! {

/// What a line asks for.
#[derive(Debug)]
pub enum InteractiveCommand {
    /// End the session.
    Quit,
    /// Switch to another mode.
    ChangeMode(SessionMode),
    /// Store a journal entry with this text.
    AddJournal(String),
    /// Plain text that no mode acts on yet.
    Text(String),
}

/// A command with its texts as character sequences.
pub enum CommandView {
    Quit,
    ChangeMode(SessionMode),
    AddJournal(Seq<char>),
    Text(Seq<char>),
}

impl View for InteractiveCommand {
    type V = CommandView;

    open spec fn view(&self) -> CommandView {
        match *self {
            InteractiveCommand::Quit => CommandView::Quit,
            InteractiveCommand::ChangeMode(mode) => CommandView::ChangeMode(mode),
            InteractiveCommand::AddJournal(text) => CommandView::AddJournal(text@),
            InteractiveCommand::Text(text) => CommandView::Text(text@),
        }
    }
}

/// What stands in `s` before the first `sep`: all of `s` where it holds none.
pub open spec fn before(s: Seq<char>, sep: char) -> Seq<char>
    decreases s.len(),
{
    if s.len() == 0 || s[0] == sep {
        Seq::<char>::empty()
    } else {
        seq![s[0]] + before(s.drop_first(), sep)
    }
}

/// The command that `word` names, with the complaint for a word that names
/// none.
pub open spec fn command_of(word: Seq<char>) -> Result<CommandView, Seq<char>> {
    if word == "\\quit"@ {
        Ok(CommandView::Quit)
    } else if word == "\\journal"@ {
        Ok(CommandView::ChangeMode(SessionMode::Journal))
    } else if word == "\\snippet"@ {
        Ok(CommandView::ChangeMode(SessionMode::Snippet))
    } else if word == "\\note"@ {
        Ok(CommandView::ChangeMode(SessionMode::Note))
    } else {
        Err("Unknown command: "@ + word)
    }
}

/// What `content`, a line that is no command, means in `mode`. In journal
/// mode `add ` and a text stores that text, trimmed, and asks for one that is
/// not empty. Everything else is plain text.
pub open spec fn content_of(line: Seq<char>, mode: SessionMode) -> Result<CommandView, Seq<char>> {
    if mode == SessionMode::Journal && starts_with_seq(line, "add "@) {
        let content = trim_seq(line.subrange(4, line.len() as int));
        if content.len() == 0 {
            Err("Journal entry content cannot be empty."@)
        } else {
            Ok(CommandView::AddJournal(content))
        }
    } else {
        Ok(CommandView::Text(line))
    }
}

/// What `line` means in `mode`.
pub open spec fn parse_line(line: Seq<char>, mode: SessionMode) -> Result<CommandView, Seq<char>> {
    if line.len() > 0 && line[0] == '\\' {
        command_of(before(line, ' '))
    } else {
        content_of(line, mode)
    }
}

/// `r` is the outcome `expected`, text for text.
pub open spec fn parsed_as(
    r: Result<InteractiveCommand, String>,
    expected: Result<CommandView, Seq<char>>,
) -> bool {
    match expected {
        Ok(command) => r matches Ok(c) && c@ == command,
        Err(complaint) => r matches Err(e) && e@ == complaint,
    }
}

/// What stands in `v` before the first `sep`.
pub fn take_before(v: &Vec<char>, sep: char) -> (r: Vec<char>)
    ensures
        r@ == before(v@, sep),
{
    let mut r: Vec<char> = Vec::new();
    let mut i: usize = 0;
    assert(v@.subrange(0, v@.len() as int) =~= v@);
    assert(r@ + before(v@, sep) =~= before(v@, sep));
    while i < v.len() && v[i] != sep
        invariant
            i <= v.len(),
            before(v@, sep) == r@ + before(v@.subrange(i as int, v@.len() as int), sep),
        decreases v.len() - i,
    {
        let ghost rest = v@.subrange(i as int, v@.len() as int);
        let ghost before_push = r@;
        assert(rest.drop_first() =~= v@.subrange(i + 1, v@.len() as int));
        r.push(v[i]);
        assert(r@ + before(rest.drop_first(), sep) =~= before_push + (seq![rest[0]] + before(
            rest.drop_first(),
            sep,
        )));
        i += 1;
    }
    assert(r@ + Seq::<char>::empty() =~= r@);
    r
}

/// Reads one line of a session that is in the mode of `state`.
///
/// `\quit` ends the session; `\journal`, `\snippet` and `\note` switch the
/// mode; any other word after a backslash is refused by name. A line without
/// a leading backslash is content: in journal mode `add ` and a text stores
/// the trimmed text, which must not be empty; everything else is handed on
/// as plain text.
pub fn parse_input(line: &str, state: &SessionState) -> (r: Result<InteractiveCommand, String>)
    ensures
        parsed_as(r, parse_line(line@, state.mode)),
{
    let chars = to_chars(line);
    if chars.len() > 0 && chars[0] == '\\' {
        let word = take_before(&chars, ' ');
        if same_chars(&word, &to_chars("\\quit")) {
            Ok(InteractiveCommand::Quit)
        } else if same_chars(&word, &to_chars("\\journal")) {
            Ok(InteractiveCommand::ChangeMode(SessionMode::Journal))
        } else if same_chars(&word, &to_chars("\\snippet")) {
            Ok(InteractiveCommand::ChangeMode(SessionMode::Snippet))
        } else if same_chars(&word, &to_chars("\\note")) {
            Ok(InteractiveCommand::ChangeMode(SessionMode::Note))
        } else {
            let mut complaint = to_chars("Unknown command: ");
            extend_chars(&mut complaint, &word);
            Err(from_chars(&complaint))
        }
    } else {
        let marker = to_chars("add ");
        proof {
            reveal_strlit("add ");
        }
        let in_journal = match state.mode {
            SessionMode::Journal => true,
            _ => false,
        };
        if in_journal && starts_with_chars(&chars, &marker) {
            let content = trim_chars(&slice_chars(&chars, 4, chars.len()));
            if content.len() == 0 {
                Err("Journal entry content cannot be empty.".to_owned())
            } else {
                Ok(InteractiveCommand::AddJournal(from_chars(&content)))
            }
        } else {
            Ok(InteractiveCommand::Text(from_chars(&chars)))
        }
    }
}

} // verus!
