//! The interactive console: what a key means, and what the program does
//! when a key, a peer message or the outcome of a send arrives.
//!
//! The console decides; the program that owns the terminal and the socket
//! performs the action it is handed and reports back what happened.

use crate::edit_line::EditLine;
use crate::edit_line::EditOp;
use crate::edit_line::LineModel;
use vstd::prelude::*;
use vstd::string::StringExecFns;

verus! {

/// How long the program waits for a key before it looks at the inbox, in
/// milliseconds.
pub const INPUT_POLL_MILLIS: u64 = 100;

/// A key of the keyboard, as far as the console tells keys apart.
#[derive(Clone, Copy, Debug, PartialEq, Eq, Structural)]
pub enum Key {
    Char(char),
    Backspace,
    Enter,
    Left,
    Right,
    Home,
    End,
    Esc,
    Other,
}

/// Whether a key went down, is held, or came up.
#[derive(Clone, Copy, Debug, PartialEq, Eq, Structural)]
pub enum KeyKind {
    Press,
    Repeat,
    Release,
}

/// What a key asks for.
#[derive(Clone, Copy, Debug, PartialEq, Eq, Structural)]
pub enum Command {
    /// Change the line or move the cursor.
    Edit(EditOp),
    /// Send the line to the peer.
    Submit,
    /// Leave the program.
    Quit,
    /// The key has no meaning here.
    Ignore,
}

/// The command that a key stands for.
pub open spec fn command_of(key: Key) -> Command {
    match key {
        Key::Char(c) => Command::Edit(EditOp::Insert(c)),
        Key::Backspace => Command::Edit(EditOp::Delete),
        Key::Left => Command::Edit(EditOp::MoveLeft),
        Key::Right => Command::Edit(EditOp::MoveRight),
        Key::Home => Command::Edit(EditOp::MoveHome),
        Key::End => Command::Edit(EditOp::MoveEnd),
        Key::Enter => Command::Submit,
        Key::Esc => Command::Quit,
        Key::Other => Command::Ignore,
    }
}

/// The command that a pressed key gives.
pub fn interpret_key(key: Key) -> (r: Command)
    ensures
        r == command_of(key),
{
    match key {
        Key::Char(c) => Command::Edit(EditOp::Insert(c)),
        Key::Backspace => Command::Edit(EditOp::Delete),
        Key::Left => Command::Edit(EditOp::MoveLeft),
        Key::Right => Command::Edit(EditOp::MoveRight),
        Key::Home => Command::Edit(EditOp::MoveHome),
        Key::End => Command::Edit(EditOp::MoveEnd),
        Key::Enter => Command::Submit,
        Key::Esc => Command::Quit,
        Key::Other => Command::Ignore,
    }
}

/// Where the console stands.
#[derive(Clone, Copy, Debug, PartialEq, Eq, Structural)]
pub enum Phase {
    /// Keys edit the line.
    Editing,
    /// The line was handed out for sending and the outcome is awaited.
    Sending,
    /// The console is done.
    Closed,
}

/// Something that happened and that the console must react to.
#[derive(Clone, Debug, PartialEq, Eq)]
pub enum ConsoleEvent {
    /// The terminal reported a key.
    Key(Key, KeyKind),
    /// The line handed out for sending went out.
    Sent,
    /// The transport refused the line handed out for sending.
    SendFailed,
    /// A message of the peer came out of the inbox.
    Inbound(String),
    /// The inbox will never yield a message again.
    InboxClosed,
}

/// What the program must do next.
#[derive(Clone, Debug, PartialEq, Eq)]
pub enum ConsoleAction {
    /// Nothing.
    Nothing,
    /// Show the prompt and the line again and place the cursor.
    Redraw,
    /// Echo this text as a finished line and send it to the peer as one
    /// datagram, then report `Sent` or `SendFailed`.
    Transmit(String),
    /// Show this message of the peer above the prompt, then show the
    /// prompt and the line again.
    ShowInbound(String),
    /// Tell the user that the line was not sent; it is still in the editor.
    ReportSendFailure,
    /// End the program with a failure status.
    Quit,
    /// Restore the terminal and return.
    Leave,
}

/// The mathematical value of a [`ConsoleAction`].
pub enum ActionView {
    Nothing,
    Redraw,
    Transmit(Seq<char>),
    ShowInbound(Seq<char>),
    ReportSendFailure,
    Quit,
    Leave,
}

impl View for ConsoleAction {
    type V = ActionView;

    open spec fn view(&self) -> ActionView {
        match self {
            ConsoleAction::Nothing => ActionView::Nothing,
            ConsoleAction::Redraw => ActionView::Redraw,
            ConsoleAction::Transmit(text) => ActionView::Transmit(text@),
            ConsoleAction::ShowInbound(text) => ActionView::ShowInbound(text@),
            ConsoleAction::ReportSendFailure => ActionView::ReportSendFailure,
            ConsoleAction::Quit => ActionView::Quit,
            ConsoleAction::Leave => ActionView::Leave,
        }
    }
}

/// The mathematical value of a [`Console`].
pub struct ConsoleView {
    pub line: LineModel,
    pub phase: Phase,
}

impl ConsoleView {
    /// The console after an event.
    pub open spec fn next(self, event: ConsoleEvent) -> ConsoleView {
        match (self.phase, event) {
            (Phase::Editing, ConsoleEvent::Key(key, kind)) => if kind == KeyKind::Release {
                self
            } else {
                match command_of(key) {
                    Command::Edit(op) => ConsoleView { line: self.line.apply(op), ..self },
                    Command::Submit => ConsoleView { phase: Phase::Sending, ..self },
                    Command::Quit => ConsoleView { phase: Phase::Closed, ..self },
                    Command::Ignore => self,
                }
            },
            (Phase::Sending, ConsoleEvent::Sent) => ConsoleView {
                line: LineModel::empty(),
                phase: Phase::Editing,
            },
            (Phase::Sending, ConsoleEvent::SendFailed) => ConsoleView {
                phase: Phase::Editing,
                ..self
            },
            (Phase::Editing, ConsoleEvent::InboxClosed) => ConsoleView {
                phase: Phase::Closed,
                ..self
            },
            (Phase::Sending, ConsoleEvent::InboxClosed) => ConsoleView {
                phase: Phase::Closed,
                ..self
            },
            _ => self,
        }
    }

    /// What the program is asked to do in answer to an event.
    pub open spec fn action_for(self, event: ConsoleEvent) -> ActionView {
        match (self.phase, event) {
            (Phase::Editing, ConsoleEvent::Key(key, kind)) => if kind == KeyKind::Release {
                ActionView::Nothing
            } else {
                match command_of(key) {
                    Command::Edit(_) => ActionView::Redraw,
                    Command::Submit => ActionView::Transmit(self.line.buffer),
                    Command::Quit => ActionView::Quit,
                    Command::Ignore => ActionView::Redraw,
                }
            },
            (Phase::Sending, ConsoleEvent::Sent) => ActionView::Redraw,
            (Phase::Sending, ConsoleEvent::SendFailed) => ActionView::ReportSendFailure,
            (Phase::Editing, ConsoleEvent::Inbound(text)) => ActionView::ShowInbound(text@),
            (Phase::Sending, ConsoleEvent::Inbound(text)) => ActionView::ShowInbound(text@),
            (Phase::Editing, ConsoleEvent::InboxClosed) => ActionView::Leave,
            (Phase::Sending, ConsoleEvent::InboxClosed) => ActionView::Leave,
            _ => ActionView::Nothing,
        }
    }
}

/// The column of the terminal, counted from zero, at which the cursor
/// stands when the line is shown behind the two-character prompt. Columns
/// wrap at 65536.
pub open spec fn column_of(cursor: int) -> int {
    (cursor + 2) % 0x1_0000
}

/// The console of one chat session.
pub struct Console {
    line: EditLine,
    phase: Phase,
}

impl View for Console {
    type V = ConsoleView;

    closed spec fn view(&self) -> ConsoleView {
        ConsoleView { line: self.line@, phase: self.phase }
    }
}

impl Console {
    /// A console with an empty line, ready for keys.
    pub fn new() -> (console: Console)
        ensures
            console@ == (ConsoleView { line: LineModel::empty(), phase: Phase::Editing }),
    {
        Console { line: EditLine::new(), phase: Phase::Editing }
    }

    /// The line being edited.
    pub fn line(&self) -> (r: &EditLine)
        ensures
            r@ == self@.line,
    {
        &self.line
    }

    /// Where the console stands.
    pub fn phase(&self) -> (r: Phase)
        ensures
            r == self@.phase,
    {
        self.phase
    }

    /// The text to show on the input row: the prompt and the line.
    pub fn prompt_text(&self) -> (r: String)
        ensures
            r@ == "> "@ + self@.line.buffer,
    {
        let mut shown = String::from_str("> ");
        let text = self.line.text();
        shown.append(text.as_str());
        shown
    }

    /// The row that shows a message of the peer.
    pub fn peer_line(text: &str) -> (r: String)
        ensures
            r@ == "[PEER]: "@ + text@,
    {
        let mut shown = String::from_str("[PEER]: ");
        shown.append(text);
        shown
    }

    /// The column at which the terminal cursor belongs.
    pub fn cursor_column(&self) -> (r: u16)
        ensures
            r == column_of(self@.line.cursor),
    {
        let low: usize = self.line.cursor() % 0x1_0000;
        ((low + 2) % 0x1_0000) as u16
    }

    /// Reacts to an event: moves to the next state and tells the program
    /// what to do.
    pub fn step(&mut self, event: ConsoleEvent) -> (action: ConsoleAction)
        ensures
            final(self)@ == old(self)@.next(event),
            action@ == old(self)@.action_for(event),
    {
        match self.phase {
            Phase::Closed => ConsoleAction::Nothing,
            Phase::Editing => match event {
                ConsoleEvent::Key(key, kind) => {
                    if kind == KeyKind::Release {
                        ConsoleAction::Nothing
                    } else {
                        match interpret_key(key) {
                            Command::Edit(op) => {
                                self.line.apply(op);
                                ConsoleAction::Redraw
                            },
                            Command::Submit => {
                                self.phase = Phase::Sending;
                                ConsoleAction::Transmit(self.line.text())
                            },
                            Command::Quit => {
                                self.phase = Phase::Closed;
                                ConsoleAction::Quit
                            },
                            Command::Ignore => ConsoleAction::Redraw,
                        }
                    }
                },
                ConsoleEvent::Inbound(text) => ConsoleAction::ShowInbound(text),
                ConsoleEvent::InboxClosed => {
                    self.phase = Phase::Closed;
                    ConsoleAction::Leave
                },
                ConsoleEvent::Sent => ConsoleAction::Nothing,
                ConsoleEvent::SendFailed => ConsoleAction::Nothing,
            },
            Phase::Sending => match event {
                ConsoleEvent::Sent => {
                    self.line.clear();
                    self.phase = Phase::Editing;
                    ConsoleAction::Redraw
                },
                ConsoleEvent::SendFailed => {
                    self.phase = Phase::Editing;
                    ConsoleAction::ReportSendFailure
                },
                ConsoleEvent::Inbound(text) => ConsoleAction::ShowInbound(text),
                ConsoleEvent::InboxClosed => {
                    self.phase = Phase::Closed;
                    ConsoleAction::Leave
                },
                ConsoleEvent::Key(_, _) => ConsoleAction::Nothing,
            },
        }
    }
}

} // verus!
