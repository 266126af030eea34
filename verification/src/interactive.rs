//! The state of an interactive session and what each line does to it.
//!
//! Reading lines and showing results is left to the front end. Here is what
//! it needs to decide: which mode the session is in, what a line means, and
//! what is to be done about it.

pub mod parser;

use crate::interactive::parser::{parse_input, parse_line, CommandView, InteractiveCommand};
use crate::text::{extend_chars, from_chars, to_chars};
use vstd::prelude::*;

verus! {

/// What the lines of a session are read as.
#[derive(Debug, Clone, Copy, PartialEq, Eq, Structural)]
pub enum SessionMode {
    Journal,
    Snippet,
    Note,
    Search,
    Help,
}

impl SessionMode {
    /// The name of the mode, as the prompt shows it.
    pub open spec fn label_of(self) -> Seq<char> {
        match self {
            SessionMode::Journal => "journal"@,
            SessionMode::Snippet => "snippet"@,
            SessionMode::Note => "note"@,
            SessionMode::Search => "search"@,
            SessionMode::Help => "help"@,
        }
    }

    /// The name of the mode, as the prompt shows it.
    pub fn label(&self) -> (r: String)
        ensures
            r@ == self.label_of(),
    {
        match self {
            SessionMode::Journal => "journal".to_owned(),
            SessionMode::Snippet => "snippet".to_owned(),
            SessionMode::Note => "note".to_owned(),
            SessionMode::Search => "search".to_owned(),
            SessionMode::Help => "help".to_owned(),
        }
    }
}

impl Default for SessionMode {
    /// A session starts in journal mode.
    fn default() -> (r: SessionMode)
        ensures
            r == SessionMode::Journal,
    {
        SessionMode::Journal
    }
}

/// What a session remembers between lines.
#[derive(Debug)]
pub struct SessionState {
    pub mode: SessionMode,
}

impl Default for SessionState {
    /// A session starts in journal mode.
    fn default() -> (r: SessionState)
        ensures
            r.mode == SessionMode::Journal,
    {
        SessionState { mode: SessionMode::Journal }
    }
}

/// What the front end is to do after a line.
#[derive(Debug)]
pub enum SessionAction {
    /// Leave the session.
    Quit,
    /// Tell the user of a success, with this text.
    Announce(String),
    /// Store a journal entry with this text and without tags.
    StoreJournal(String),
    /// Show this text as it is.
    Report(String),
}

/// An action with its texts as character sequences.
pub enum ActionView {
    Quit,
    Announce(Seq<char>),
    StoreJournal(Seq<char>),
    Report(Seq<char>),
}

impl View for SessionAction {
    type V = ActionView;

    open spec fn view(&self) -> ActionView {
        match *self {
            SessionAction::Quit => ActionView::Quit,
            SessionAction::Announce(text) => ActionView::Announce(text@),
            SessionAction::StoreJournal(text) => ActionView::StoreJournal(text@),
            SessionAction::Report(text) => ActionView::Report(text@),
        }
    }
}

/// The mode after a line with the outcome `parsed`: a change of mode takes
/// effect, everything else leaves the mode as it is.
pub open spec fn mode_after(mode: SessionMode, parsed: Result<CommandView, Seq<char>>) -> SessionMode {
    match parsed {
        Ok(CommandView::ChangeMode(next)) => next,
        _ => mode,
    }
}

/// What is to be done about a line with the outcome `parsed`.
pub open spec fn action_for(parsed: Result<CommandView, Seq<char>>) -> ActionView {
    match parsed {
        Ok(CommandView::Quit) => ActionView::Quit,
        Ok(CommandView::ChangeMode(next)) => ActionView::Announce(
            "Switched to "@ + next.label_of() + " mode."@,
        ),
        Ok(CommandView::AddJournal(text)) => ActionView::StoreJournal(text),
        Ok(CommandView::Text(text)) => ActionView::Report("Command not yet implemented: "@ + text),
        Err(complaint) => ActionView::Report("Error parsing command: "@ + complaint),
    }
}

/// `head`, then `body`, then `tail`, as one string.
fn compose(head: &str, body: &str, tail: &str) -> (r: String)
    ensures
        r@ == head@ + body@ + tail@,
{
    let mut out = to_chars(head);
    extend_chars(&mut out, &to_chars(body));
    extend_chars(&mut out, &to_chars(tail));
    from_chars(&out)
}

/// Takes one line of input: reads it in the current mode, switches the mode
/// where the line asks for that, and says what the front end is to do.
pub fn advance(state: &mut SessionState, line: &str) -> (action: SessionAction)
    ensures
        final(state).mode == mode_after(old(state).mode, parse_line(line@, old(state).mode)),
        action@ == action_for(parse_line(line@, old(state).mode)),
{
    match parse_input(line, state) {
        Ok(InteractiveCommand::Quit) => SessionAction::Quit,
        Ok(InteractiveCommand::ChangeMode(next)) => {
            state.mode = next;
            let name = next.label();
            SessionAction::Announce(compose("Switched to ", name.as_str(), " mode."))
        },
        Ok(InteractiveCommand::AddJournal(text)) => SessionAction::StoreJournal(text),
        Ok(InteractiveCommand::Text(text)) => {
            let shown = compose("Command not yet implemented: ", text.as_str(), "");
            assert("Command not yet implemented: "@ + text@ + ""@ =~= "Command not yet implemented: "@
                + text@) by {
                reveal_strlit("");
            }
            SessionAction::Report(shown)
        },
        Err(complaint) => {
            let shown = compose("Error parsing command: ", complaint.as_str(), "");
            assert("Error parsing command: "@ + complaint@ + ""@ =~= "Error parsing command: "@
                + complaint@) by {
                reveal_strlit("");
            }
            SessionAction::Report(shown)
        },
    }
}

} // verus!
