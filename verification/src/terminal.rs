//! The terminal session: exclusive ownership of the terminal device, modeled
//! as a queue of device commands plus the device's input mode.
//!
//! The session never touches the device itself. Every primitive appends a
//! [`Command`] to a pending queue and updates the model of the device state;
//! `execute` hands the whole queue out as one batch, so that a front end can
//! perform it on the real device as a single flush. This realizes the
//! batching contract: all output queued for one screen refresh leaves the
//! session as one unit.

use vstd::prelude::*;

use crate::theme::Color;

verus! {

/// Terminal dimensions in character cells.
#[derive(Clone, Copy, PartialEq, Eq, Debug, Structural)]
pub struct Size {
    pub width: usize,
    pub height: usize,
}

/// Zero-based cell coordinates: `col` grows rightward, `row` downward.
#[derive(Clone, Copy, PartialEq, Eq, Debug, Structural)]
pub struct Position {
    pub col: usize,
    pub row: usize,
}

/// One device control step. A front end performs each variant as the
/// corresponding control sequence (or mode toggle) on the real terminal.
#[derive(Debug, PartialEq, Eq)]
pub enum Command {
    /// Enable raw input mode: no line buffering, no echo.
    EnableRawMode,
    /// Restore cooked input mode.
    DisableRawMode,
    /// Clear the whole screen.
    ClearScreen,
    /// Hide the caret glyph.
    HideCaret,
    /// Show the caret glyph.
    ShowCaret,
    /// Move the caret to the given cell.
    MoveCaretTo(Position),
    /// Select a foreground and a background color.
    SetColors(Color, Color),
    /// Write text at the caret.
    Print(String),
    /// Reset color selection to the device default.
    ResetColor,
}

/// The mathematical image of a [`Command`]: text is a sequence of characters.
pub ghost enum CommandModel {
    EnableRawMode,
    DisableRawMode,
    ClearScreen,
    HideCaret,
    ShowCaret,
    MoveCaretTo(Position),
    SetColors(Color, Color),
    Print(Seq<char>),
    ResetColor,
}

impl View for Command {
    type V = CommandModel;

    open spec fn view(&self) -> CommandModel {
        match self {
            Command::EnableRawMode => CommandModel::EnableRawMode,
            Command::DisableRawMode => CommandModel::DisableRawMode,
            Command::ClearScreen => CommandModel::ClearScreen,
            Command::HideCaret => CommandModel::HideCaret,
            Command::ShowCaret => CommandModel::ShowCaret,
            Command::MoveCaretTo(p) => CommandModel::MoveCaretTo(*p),
            Command::SetColors(fg, bg) => CommandModel::SetColors(*fg, *bg),
            Command::Print(s) => CommandModel::Print(s@),
            Command::ResetColor => CommandModel::ResetColor,
        }
    }
}

/// The image of a whole command batch.
pub open spec fn models(s: Seq<Command>) -> Seq<CommandModel> {
    s.map_values(|c: Command| c@)
}

/// The mathematical state of a session: the device's input mode, the last
/// known dimensions, and the commands queued but not yet handed out.
#[verifier::ext_equal]
pub ghost struct TerminalModel {
    pub raw_mode: bool,
    pub size: Size,
    pub queued: Seq<CommandModel>,
}

/// What `initialize` does to a session: raw mode on, a raw-mode toggle and a
/// screen clear queued.
pub open spec fn initialize_spec(t: TerminalModel) -> TerminalModel {
    TerminalModel {
        raw_mode: true,
        size: t.size,
        queued: t.queued + seq![CommandModel::EnableRawMode, CommandModel::ClearScreen],
    }
}

/// What `terminate` does to a session: cooked mode restored, the toggle
/// queued.
pub open spec fn terminate_spec(t: TerminalModel) -> TerminalModel {
    TerminalModel {
        raw_mode: false,
        size: t.size,
        queued: t.queued + seq![CommandModel::DisableRawMode],
    }
}

/// Exclusive handle on the terminal device for the session's duration.
///
/// `raw_mode` mirrors the device's input mode as the queued toggles will
/// leave it once performed; `pending` is the not-yet-flushed command queue.
pub struct Terminal {
    size: Size,
    raw_mode: bool,
    pending: Vec<Command>,
}

impl View for Terminal {
    type V = TerminalModel;

    closed spec fn view(&self) -> TerminalModel {
        TerminalModel {
            raw_mode: self.raw_mode,
            size: self.size,
            queued: models(self.pending@),
        }
    }
}

impl Terminal {
    /// A fresh session over the conventional 80x24 viewport, in cooked mode,
    /// with nothing queued. Use [`Terminal::with_size`] when the device's
    /// real dimensions are known.
    pub fn default() -> (t: Terminal)
        ensures
            t@ == (TerminalModel {
                raw_mode: false,
                size: Size { width: 80, height: 24 },
                queued: Seq::<CommandModel>::empty(),
            }),
    {
        Terminal::with_size(Size { width: 80, height: 24 })
    }

    /// A fresh session over the given viewport, in cooked mode, with nothing
    /// queued.
    pub fn with_size(size: Size) -> (t: Terminal)
        ensures
            t@ == (TerminalModel { raw_mode: false, size, queued: Seq::<CommandModel>::empty() }),
    {
        let t = Terminal { size, raw_mode: false, pending: Vec::new() };
        proof {
            assert(t@.queued =~= Seq::<CommandModel>::empty());
            assert(t@ =~= TerminalModel {
                raw_mode: false,
                size,
                queued: Seq::<CommandModel>::empty(),
            });
        }
        t
    }

    /// The last known dimensions of the viewport.
    pub fn size(&self) -> (s: Size)
        ensures
            s == self@.size,
    {
        self.size
    }

    /// Whether the queued toggles leave the device in raw input mode.
    pub fn is_raw_mode(&self) -> (b: bool)
        ensures
            b == self@.raw_mode,
    {
        self.raw_mode
    }

    /// Append one command to the pending queue.
    fn queue(&mut self, c: Command)
        ensures
            final(self)@.queued == old(self)@.queued.push(c@),
            final(self)@.raw_mode == old(self)@.raw_mode,
            final(self)@.size == old(self)@.size,
    {
        let ghost before = self@.queued;
        self.pending.push(c);
        proof {
            assert(self@.queued =~= before.push(c@));
        }
    }

    /// Enable raw input mode and clear the screen. The queued commands fail
    /// on the device only for reasons outside this model (for example, no
    /// TTY); the front end treats such a failure as fatal.
    pub fn initialize(&mut self)
        ensures
            final(self)@ == initialize_spec(old(self)@),
    {
        self.raw_mode = true;
        self.queue(Command::EnableRawMode);
        self.queue(Command::ClearScreen);
        proof {
            assert(self@.queued =~= initialize_spec(old(self)@).queued);
            assert(self@ =~= initialize_spec(old(self)@));
        }
    }

    /// Restore cooked input mode. Must run on every exit path of a run, so
    /// that the user's shell is never left in raw mode.
    pub fn terminate(&mut self)
        ensures
            final(self)@ == terminate_spec(old(self)@),
    {
        self.raw_mode = false;
        self.queue(Command::DisableRawMode);
        proof {
            assert(self@.queued =~= terminate_spec(old(self)@).queued);
            assert(self@ =~= terminate_spec(old(self)@));
        }
    }

    /// Queue a whole-screen clear.
    pub fn clear_screen(&mut self)
        ensures
            final(self)@.queued == old(self)@.queued.push(CommandModel::ClearScreen),
            final(self)@.raw_mode == old(self)@.raw_mode,
            final(self)@.size == old(self)@.size,
    {
        self.queue(Command::ClearScreen);
    }

    /// Queue hiding the caret glyph.
    pub fn hide_caret(&mut self)
        ensures
            final(self)@.queued == old(self)@.queued.push(CommandModel::HideCaret),
            final(self)@.raw_mode == old(self)@.raw_mode,
            final(self)@.size == old(self)@.size,
    {
        self.queue(Command::HideCaret);
    }

    /// Queue showing the caret glyph.
    pub fn show_caret(&mut self)
        ensures
            final(self)@.queued == old(self)@.queued.push(CommandModel::ShowCaret),
            final(self)@.raw_mode == old(self)@.raw_mode,
            final(self)@.size == old(self)@.size,
    {
        self.queue(Command::ShowCaret);
    }

    /// Queue a caret move to the given cell.
    pub fn move_caret_to(&mut self, p: Position)
        ensures
            final(self)@.queued == old(self)@.queued.push(CommandModel::MoveCaretTo(p)),
            final(self)@.raw_mode == old(self)@.raw_mode,
            final(self)@.size == old(self)@.size,
    {
        self.queue(Command::MoveCaretTo(p));
    }

    /// Queue unstyled text.
    pub fn write(&mut self, text: String)
        ensures
            final(self)@.queued == old(self)@.queued.push(CommandModel::Print(text@)),
            final(self)@.raw_mode == old(self)@.raw_mode,
            final(self)@.size == old(self)@.size,
    {
        self.queue(Command::Print(text));
    }

    /// Queue styled text: color selection, the text, then a color reset. The
    /// reset is queued even for empty text, so that no color state leaks
    /// into later writes.
    pub fn print(&mut self, text: String, theme: crate::theme::Theme)
        ensures
            final(self)@.queued == old(self)@.queued + styled_cmds(theme, text@),
            final(self)@.raw_mode == old(self)@.raw_mode,
            final(self)@.size == old(self)@.size,
    {
        let ghost before = self@.queued;
        let (fg, bg) = theme.colors();
        self.queue(Command::SetColors(fg, bg));
        self.queue(Command::Print(text));
        self.queue(Command::ResetColor);
        proof {
            assert(self@.queued =~= before + styled_cmds(theme, text@));
        }
    }

    /// Hand out everything queued as one batch and leave the queue empty:
    /// the single flush that ends a screen refresh.
    pub fn execute(&mut self) -> (batch: Vec<Command>)
        ensures
            models(batch@) == old(self)@.queued,
            final(self)@.queued == Seq::<CommandModel>::empty(),
            final(self)@.raw_mode == old(self)@.raw_mode,
            final(self)@.size == old(self)@.size,
    {
        let mut batch: Vec<Command> = Vec::new();
        core::mem::swap(&mut batch, &mut self.pending);
        proof {
            assert(self@.queued =~= Seq::<CommandModel>::empty());
        }
        batch
    }
}

/// The commands of one styled write: select the theme's pair, print, reset.
pub open spec fn styled_cmds(theme: crate::theme::Theme, text: Seq<char>) -> Seq<CommandModel> {
    seq![
        CommandModel::SetColors(theme.colors_spec().0, theme.colors_spec().1),
        CommandModel::Print(text),
        CommandModel::ResetColor,
    ]
}

/// Scoped-resource law: a session taken into raw mode and then terminated,
/// with no operation in between, ends in cooked mode; starting from cooked
/// mode, the round trip restores exactly the original input mode, and the
/// dimensions are untouched.
pub proof fn lemma_session_round_trip(t: TerminalModel)
    ensures
        !terminate_spec(initialize_spec(t)).raw_mode,
        !t.raw_mode ==> terminate_spec(initialize_spec(t)).raw_mode == t.raw_mode,
        terminate_spec(initialize_spec(t)).size == t.size,
{
}

} // verus!
