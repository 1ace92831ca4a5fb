//! The editor controller: a two-state machine (running, quitting) driven by
//! input events, owning the cursor and the terminal session.
//!
//! Each iteration refreshes the screen, then evaluates one input event: the
//! quit combination (Ctrl+Q) latches the quitting state, a navigation key
//! moves the cursor inside the viewport, anything else is ignored. After the
//! quitting state is entered, one farewell refresh is produced and no further
//! event is consumed.

use vstd::prelude::*;

use crate::cursor::{move_cursor, move_spec, NavigationCommand};
use crate::terminal::{
    models, styled_cmds, Command, CommandModel, Position, Size, Terminal, TerminalModel,
};
use crate::theme::Theme;

verus! {

/// The key of a key event, as plain data.
#[derive(Clone, Copy, PartialEq, Eq, Debug, Structural)]
pub enum KeyCode {
    Char(char),
    Up,
    Down,
    Left,
    Right,
    Home,
    End,
    PageUp,
    PageDown,
    Other,
}

/// One input event. `press` is false for key-release or key-repeat reports;
/// only presses are actionable, so that key-repeat telemetry cannot trigger
/// an action twice. Non-key events arrive as `Other`.
#[derive(Clone, Copy, PartialEq, Eq, Debug, Structural)]
pub enum InputEvent {
    Key { code: KeyCode, ctrl: bool, press: bool },
    Other,
}

/// The navigation command a key maps to, if any.
pub open spec fn nav_of_key(code: KeyCode) -> Option<NavigationCommand> {
    match code {
        KeyCode::Up => Some(NavigationCommand::Up),
        KeyCode::Down => Some(NavigationCommand::Down),
        KeyCode::Left => Some(NavigationCommand::Left),
        KeyCode::Right => Some(NavigationCommand::Right),
        KeyCode::Home => Some(NavigationCommand::Home),
        KeyCode::End => Some(NavigationCommand::End),
        KeyCode::PageUp => Some(NavigationCommand::PageUp),
        KeyCode::PageDown => Some(NavigationCommand::PageDown),
        KeyCode::Char(_) => None,
        KeyCode::Other => None,
    }
}

/// Whether an event is the quit combination: a press of 'q' with the control
/// modifier.
pub open spec fn quit_event(e: InputEvent) -> bool {
    match e {
        InputEvent::Key { code, ctrl, press } => press && ctrl && code == KeyCode::Char('q'),
        InputEvent::Other => false,
    }
}

/// The controller's state: the one-way quit latch and the cursor.
pub ghost struct EditorState {
    pub should_quit: bool,
    pub cursor: Position,
}

/// The state transition one event causes: the quit combination latches
/// `should_quit`, a pressed navigation key moves the cursor inside `bounds`,
/// every other event changes nothing.
pub open spec fn evaluate_spec(s: EditorState, e: InputEvent, bounds: Size) -> EditorState {
    if quit_event(e) {
        EditorState { should_quit: true, cursor: s.cursor }
    } else {
        match e {
            InputEvent::Key { code, ctrl, press } => {
                if press {
                    match nav_of_key(code) {
                        Some(cmd) => EditorState {
                            should_quit: s.should_quit,
                            cursor: move_spec(s.cursor, cmd, bounds),
                        },
                        None => s,
                    }
                } else {
                    s
                }
            },
            InputEvent::Other => s,
        }
    }
}

/// Latch law: an event leaves the editor quitting exactly when it was
/// already quitting or the event is the quit combination — once set, the
/// quit flag is never reset.
pub proof fn lemma_quit_latch(s: EditorState, e: InputEvent, bounds: Size)
    ensures
        evaluate_spec(s, e, bounds).should_quit == (s.should_quit || quit_event(e)),
{
}

/// The top-left cell.
pub open spec fn origin() -> Position {
    Position { col: 0, row: 0 }
}

/// The placeholder glyph drawn at column 0 of every visible row.
pub open spec fn tilde_text() -> Seq<char> {
    "~"@
}

/// The welcome banner's message.
pub open spec fn welcome_text() -> Seq<char> {
    "rim - version 0.1"@
}

/// The farewell line: the last thing written on a normal exit.
pub open spec fn farewell_text() -> Seq<char> {
    "Goodbye.\r\n"@
}

/// The column that centers a message of length `msg_len` in `width` cells:
/// `width / 2 - msg_len / 2` in integer arithmetic, and 0 when the message
/// is wider than the viewport — never negative, never overflowing.
pub open spec fn banner_x_spec(width: usize, msg_len: int) -> usize
    recommends
        msg_len >= 0,
{
    if msg_len > width {
        0
    } else {
        ((width / 2) - (msg_len / 2)) as usize
    }
}

/// Compute the centering column of the welcome banner.
pub fn banner_x(width: usize, msg_len: usize) -> (x: usize)
    ensures
        x == banner_x_spec(width, msg_len as int),
{
    if msg_len > width {
        0
    } else {
        width / 2 - msg_len / 2
    }
}

/// The commands of one placeholder row: move to column 0 of the row, then
/// the styled glyph.
pub open spec fn row_cmds(r: usize, theme: Theme) -> Seq<CommandModel> {
    seq![CommandModel::MoveCaretTo(Position { col: 0, row: r })] + styled_cmds(
        theme,
        tilde_text(),
    )
}

/// The commands of all placeholder rows, row 0 through `h - 1`.
pub open spec fn rows_cmds(h: usize, theme: Theme) -> Seq<CommandModel>
    decreases h,
{
    if h == 0 {
        Seq::<CommandModel>::empty()
    } else {
        rows_cmds((h - 1) as usize, theme) + row_cmds((h - 1) as usize, theme)
    }
}

/// The commands of the welcome banner: move to the centered cell on row
/// `height / 3`, write the styled message, then return the caret to the
/// origin.
pub open spec fn banner_cmds(size: Size, theme: Theme) -> Seq<CommandModel> {
    seq![
        CommandModel::MoveCaretTo(
            Position {
                col: banner_x_spec(size.width, welcome_text().len() as int),
                row: (size.height / 3) as usize,
            },
        ),
    ] + styled_cmds(theme, welcome_text()) + seq![CommandModel::MoveCaretTo(origin())]
}

/// The commands of one screen refresh from state `s`: hide the caret, home
/// it, then either clear and print the farewell (when quitting) or draw the
/// whole viewport and park the caret on the cursor, and show the caret
/// again.
pub open spec fn refresh_cmds(s: EditorState, size: Size) -> Seq<CommandModel> {
    seq![CommandModel::HideCaret, CommandModel::MoveCaretTo(origin())] + (if s.should_quit {
        seq![CommandModel::ClearScreen, CommandModel::Print(farewell_text())]
    } else {
        rows_cmds(size.height, Theme::Maroon) + banner_cmds(size, Theme::Maroon) + seq![
            CommandModel::MoveCaretTo(s.cursor),
        ]
    }) + seq![CommandModel::ShowCaret]
}

/// The state after evaluating events in order, stopping at the quit latch.
pub open spec fn evaluate_seq(s: EditorState, events: Seq<InputEvent>, bounds: Size) -> EditorState
    decreases events.len(),
{
    if s.should_quit || events.len() == 0 {
        s
    } else {
        evaluate_seq(
            evaluate_spec(s, events[0], bounds),
            events.subrange(1, events.len() as int),
            bounds,
        )
    }
}

/// How many events the loop consumes: one per iteration until the quit
/// latch is set (the quit event itself is the last one consumed) or the
/// input is exhausted. Once quitting, nothing further is read.
pub open spec fn consumed_spec(s: EditorState, events: Seq<InputEvent>, bounds: Size) -> nat
    decreases events.len(),
{
    if s.should_quit || events.len() == 0 {
        0
    } else {
        1 + consumed_spec(
            evaluate_spec(s, events[0], bounds),
            events.subrange(1, events.len() as int),
            bounds,
        )
    }
}

/// The refreshes the loop emits after the one for the starting state: one
/// per consumed event.
pub open spec fn loop_trace(s: EditorState, events: Seq<InputEvent>, size: Size) -> Seq<
    CommandModel,
>
    decreases events.len(),
{
    if s.should_quit || events.len() == 0 {
        Seq::<CommandModel>::empty()
    } else {
        let s2 = evaluate_spec(s, events[0], size);
        refresh_cmds(s2, size) + loop_trace(s2, events.subrange(1, events.len() as int), size)
    }
}

/// Everything the loop writes: the first refresh, then one refresh per
/// consumed event.
pub open spec fn repl_trace(s: EditorState, events: Seq<InputEvent>, size: Size) -> Seq<
    CommandModel,
> {
    refresh_cmds(s, size) + loop_trace(s, events, size)
}

/// Whether a command prints the farewell line.
pub open spec fn is_farewell(c: CommandModel) -> bool {
    c == CommandModel::Print(farewell_text())
}

/// How many commands of a batch print the farewell line.
pub open spec fn farewell_count(s: Seq<CommandModel>) -> nat
    decreases s.len(),
{
    if s.len() == 0 {
        0
    } else {
        farewell_count(s.drop_last()) + (if is_farewell(s.last()) {
            1nat
        } else {
            0nat
        })
    }
}

proof fn lemma_models_concat(a: Seq<Command>, b: Seq<Command>)
    ensures
        models(a + b) == models(a) + models(b),
{
    assert(models(a + b) =~= models(a) + models(b));
}

proof fn lemma_farewell_count_concat(a: Seq<CommandModel>, b: Seq<CommandModel>)
    ensures
        farewell_count(a + b) == farewell_count(a) + farewell_count(b),
    decreases b.len(),
{
    if b.len() == 0 {
        assert(a + b =~= a);
    } else {
        lemma_farewell_count_concat(a, b.drop_last());
        assert((a + b).drop_last() =~= a + b.drop_last());
    }
}

proof fn lemma_farewell_count_singleton(c: CommandModel)
    ensures
        farewell_count(seq![c]) == if is_farewell(c) {
            1nat
        } else {
            0nat
        },
{
    assert(seq![c].drop_last() =~= Seq::<CommandModel>::empty());
    assert(farewell_count(Seq::<CommandModel>::empty()) == 0);
    assert(seq![c].last() == c);
}

proof fn lemma_styled_farewell_zero(theme: Theme, text: Seq<char>)
    requires
        text != farewell_text(),
    ensures
        farewell_count(styled_cmds(theme, text)) == 0,
{
    let a = seq![CommandModel::SetColors(theme.colors_spec().0, theme.colors_spec().1)];
    let b = seq![CommandModel::Print(text)];
    let c = seq![CommandModel::ResetColor];
    assert(styled_cmds(theme, text) =~= a + b + c);
    lemma_farewell_count_concat(a + b, c);
    lemma_farewell_count_concat(a, b);
    lemma_farewell_count_singleton(CommandModel::SetColors(
        theme.colors_spec().0,
        theme.colors_spec().1,
    ));
    lemma_farewell_count_singleton(CommandModel::Print(text));
    lemma_farewell_count_singleton(CommandModel::ResetColor);
}

proof fn lemma_rows_farewell_zero(h: usize, theme: Theme)
    ensures
        farewell_count(rows_cmds(h, theme)) == 0,
    decreases h,
{
    reveal_strlit("~");
    reveal_strlit("Goodbye.\r\n");
    if h > 0 {
        let r1 = (h - 1) as usize;
        lemma_rows_farewell_zero(r1, theme);
        lemma_farewell_count_concat(rows_cmds(r1, theme), row_cmds(r1, theme));
        let m = seq![CommandModel::MoveCaretTo(Position { col: 0, row: r1 })];
        assert(row_cmds(r1, theme) == m + styled_cmds(theme, tilde_text()));
        lemma_farewell_count_concat(m, styled_cmds(theme, tilde_text()));
        lemma_farewell_count_singleton(CommandModel::MoveCaretTo(Position { col: 0, row: r1 }));
        assert(tilde_text().len() == 1);
        assert(farewell_text().len() == 10);
        lemma_styled_farewell_zero(theme, tilde_text());
    }
}

proof fn lemma_banner_farewell_zero(size: Size, theme: Theme)
    ensures
        farewell_count(banner_cmds(size, theme)) == 0,
{
    reveal_strlit("rim - version 0.1");
    reveal_strlit("Goodbye.\r\n");
    let a = seq![
        CommandModel::MoveCaretTo(
            Position {
                col: banner_x_spec(size.width, welcome_text().len() as int),
                row: (size.height / 3) as usize,
            },
        ),
    ];
    let b = styled_cmds(theme, welcome_text());
    let c = seq![CommandModel::MoveCaretTo(origin())];
    assert(banner_cmds(size, theme) == a + b + c);
    lemma_farewell_count_concat(a + b, c);
    lemma_farewell_count_concat(a, b);
    lemma_farewell_count_singleton(a[0]);
    lemma_farewell_count_singleton(CommandModel::MoveCaretTo(origin()));
    assert(welcome_text().len() == 17);
    assert(farewell_text().len() == 10);
    lemma_styled_farewell_zero(theme, welcome_text());
}

proof fn lemma_refresh_farewell(s: EditorState, size: Size)
    ensures
        farewell_count(refresh_cmds(s, size)) == if s.should_quit {
            1nat
        } else {
            0nat
        },
{
    reveal_strlit("~");
    reveal_strlit("rim - version 0.1");
    reveal_strlit("Goodbye.\r\n");
    let pre = seq![CommandModel::HideCaret, CommandModel::MoveCaretTo(origin())];
    let post = seq![CommandModel::ShowCaret];
    assert(pre =~= seq![CommandModel::HideCaret] + seq![CommandModel::MoveCaretTo(origin())]);
    lemma_farewell_count_concat(
        seq![CommandModel::HideCaret],
        seq![CommandModel::MoveCaretTo(origin())],
    );
    lemma_farewell_count_singleton(CommandModel::HideCaret);
    lemma_farewell_count_singleton(CommandModel::MoveCaretTo(origin()));
    lemma_farewell_count_singleton(CommandModel::ShowCaret);
    if s.should_quit {
        let mid = seq![CommandModel::ClearScreen, CommandModel::Print(farewell_text())];
        assert(refresh_cmds(s, size) == pre + mid + post);
        assert(mid =~= seq![CommandModel::ClearScreen] + seq![
            CommandModel::Print(farewell_text()),
        ]);
        lemma_farewell_count_concat(pre + mid, post);
        lemma_farewell_count_concat(pre, mid);
        lemma_farewell_count_concat(
            seq![CommandModel::ClearScreen],
            seq![CommandModel::Print(farewell_text())],
        );
        lemma_farewell_count_singleton(CommandModel::ClearScreen);
        lemma_farewell_count_singleton(CommandModel::Print(farewell_text()));
    } else {
        let rows = rows_cmds(size.height, Theme::Maroon);
        let banner = banner_cmds(size, Theme::Maroon);
        let park = seq![CommandModel::MoveCaretTo(s.cursor)];
        let mid = rows + banner + park;
        assert(refresh_cmds(s, size) == pre + mid + post);
        lemma_farewell_count_concat(pre + mid, post);
        lemma_farewell_count_concat(pre, mid);
        lemma_farewell_count_concat(rows + banner, park);
        lemma_farewell_count_concat(rows, banner);
        lemma_rows_farewell_zero(size.height, Theme::Maroon);
        lemma_banner_farewell_zero(size, Theme::Maroon);
        lemma_farewell_count_singleton(CommandModel::MoveCaretTo(s.cursor));
    }
}

/// Farewell law: a loop run from state `s` over any input writes the
/// farewell line exactly once when it ends quitting, and never otherwise;
/// and a loop already quitting consumes no input event at all.
pub proof fn lemma_exactly_one_farewell(s: EditorState, events: Seq<InputEvent>, size: Size)
    ensures
        farewell_count(repl_trace(s, events, size)) == if evaluate_seq(
            s,
            events,
            size,
        ).should_quit {
            1nat
        } else {
            0nat
        },
        s.should_quit ==> consumed_spec(s, events, size) == 0,
    decreases events.len(),
{
    lemma_refresh_farewell(s, size);
    lemma_farewell_count_concat(refresh_cmds(s, size), loop_trace(s, events, size));
    if s.should_quit || events.len() == 0 {
    } else {
        let s2 = evaluate_spec(s, events[0], size);
        let rest = events.subrange(1, events.len() as int);
        lemma_exactly_one_farewell(s2, rest, size);
        assert(loop_trace(s, events, size) == repl_trace(s2, rest, size));
        assert(evaluate_seq(s, events, size) == evaluate_seq(s2, rest, size));
    }
}

/// The editor controller: quit latch, cursor, and the owned terminal
/// session.
pub struct Editor {
    pub should_quit: bool,
    pub cursor: Position,
    pub terminal: Terminal,
}

impl Editor {
    /// The machine state the controller is in.
    pub open spec fn state(self) -> EditorState {
        EditorState { should_quit: self.should_quit, cursor: self.cursor }
    }

    /// A fresh controller: running, cursor at the origin, over a default
    /// 80x24 session in cooked mode.
    pub fn default() -> (e: Editor)
        ensures
            e.state() == (EditorState { should_quit: false, cursor: origin() }),
            e.terminal@ == (TerminalModel {
                raw_mode: false,
                size: Size { width: 80, height: 24 },
                queued: Seq::<CommandModel>::empty(),
            }),
    {
        Editor {
            should_quit: false,
            cursor: Position { col: 0, row: 0 },
            terminal: Terminal::default(),
        }
    }

    /// A fresh controller over a viewport of the given dimensions.
    pub fn with_size(size: Size) -> (e: Editor)
        ensures
            e.state() == (EditorState { should_quit: false, cursor: origin() }),
            e.terminal@ == (TerminalModel {
                raw_mode: false,
                size,
                queued: Seq::<CommandModel>::empty(),
            }),
    {
        Editor {
            should_quit: false,
            cursor: Position { col: 0, row: 0 },
            terminal: Terminal::with_size(size),
        }
    }

    /// Evaluate one input event: exactly the transition of
    /// [`evaluate_spec`], over the session's viewport; the session itself is
    /// untouched.
    pub fn evaluate_event(&mut self, e: &InputEvent)
        ensures
            final(self).state() == evaluate_spec(
                old(self).state(),
                *e,
                old(self).terminal@.size,
            ),
            final(self).terminal == old(self).terminal,
    {
        match *e {
            InputEvent::Key { code, ctrl, press } => {
                if press {
                    if ctrl && code == KeyCode::Char('q') {
                        self.should_quit = true;
                    } else {
                        let bounds = self.terminal.size();
                        match code {
                            KeyCode::Up => {
                                self.cursor = move_cursor(
                                    self.cursor,
                                    NavigationCommand::Up,
                                    bounds,
                                );
                            },
                            KeyCode::Down => {
                                self.cursor = move_cursor(
                                    self.cursor,
                                    NavigationCommand::Down,
                                    bounds,
                                );
                            },
                            KeyCode::Left => {
                                self.cursor = move_cursor(
                                    self.cursor,
                                    NavigationCommand::Left,
                                    bounds,
                                );
                            },
                            KeyCode::Right => {
                                self.cursor = move_cursor(
                                    self.cursor,
                                    NavigationCommand::Right,
                                    bounds,
                                );
                            },
                            KeyCode::Home => {
                                self.cursor = move_cursor(
                                    self.cursor,
                                    NavigationCommand::Home,
                                    bounds,
                                );
                            },
                            KeyCode::End => {
                                self.cursor = move_cursor(
                                    self.cursor,
                                    NavigationCommand::End,
                                    bounds,
                                );
                            },
                            KeyCode::PageUp => {
                                self.cursor = move_cursor(
                                    self.cursor,
                                    NavigationCommand::PageUp,
                                    bounds,
                                );
                            },
                            KeyCode::PageDown => {
                                self.cursor = move_cursor(
                                    self.cursor,
                                    NavigationCommand::PageDown,
                                    bounds,
                                );
                            },
                            KeyCode::Char(_) => {},
                            KeyCode::Other => {},
                        }
                    }
                }
            },
            InputEvent::Other => {},
        }
    }

    /// Queue one placeholder row glyph at column 0 of each visible row, row
    /// 0 through the last row inclusive.
    pub fn draw_rows(&mut self)
        ensures
            final(self).terminal@.queued == old(self).terminal@.queued + rows_cmds(
                old(self).terminal@.size.height,
                Theme::Maroon,
            ),
            final(self).terminal@.raw_mode == old(self).terminal@.raw_mode,
            final(self).terminal@.size == old(self).terminal@.size,
            final(self).state() == old(self).state(),
    {
        let ghost q0 = self.terminal@.queued;
        let ghost raw0 = self.terminal@.raw_mode;
        let ghost sz = self.terminal@.size;
        let ghost st0 = self.state();
        let height = self.terminal.size().height;
        let mut r: usize = 0;
        proof {
            assert(q0 + rows_cmds(0, Theme::Maroon) =~= q0);
        }
        while r < height
            invariant
                r <= height,
                self.terminal@.queued == q0 + rows_cmds(r, Theme::Maroon),
                self.terminal@.raw_mode == raw0,
                self.terminal@.size == sz,
                self.state() == st0,
            decreases height - r,
        {
            self.terminal.move_caret_to(Position { col: 0, row: r });
            self.terminal.print(String::from_str("~"), Theme::Maroon);
            proof {
                assert(self.terminal@.queued =~= q0 + rows_cmds((r + 1) as usize, Theme::Maroon));
            }
            r = r + 1;
        }
    }

    /// Queue the centered welcome banner on row `height / 3` and return the
    /// caret to the origin. A message wider than the viewport is drawn at
    /// column 0, untruncated.
    pub fn draw_welcome_message(&mut self)
        ensures
            final(self).terminal@.queued == old(self).terminal@.queued + banner_cmds(
                old(self).terminal@.size,
                Theme::Maroon,
            ),
            final(self).terminal@.raw_mode == old(self).terminal@.raw_mode,
            final(self).terminal@.size == old(self).terminal@.size,
            final(self).state() == old(self).state(),
    {
        let ghost q0 = self.terminal@.queued;
        let size = self.terminal.size();
        let message = String::from_str("rim - version 0.1");
        let len = message.as_str().unicode_len();
        let x = banner_x(size.width, len);
        let y = size.height / 3;
        self.terminal.move_caret_to(Position { col: x, row: y });
        self.terminal.print(message, Theme::Maroon);
        self.terminal.move_caret_to(Position { col: 0, row: 0 });
        proof {
            assert(self.terminal@.queued =~= q0 + banner_cmds(size, Theme::Maroon));
        }
    }

    /// One screen refresh: hide the caret, home it, then — when quitting —
    /// clear the screen and print the farewell line, otherwise draw the
    /// viewport and park the caret on the cursor; show the caret, and hand
    /// out everything queued as one flushed batch.
    pub fn refresh_screen(&mut self) -> (batch: Vec<Command>)
        ensures
            models(batch@) == old(self).terminal@.queued + refresh_cmds(
                old(self).state(),
                old(self).terminal@.size,
            ),
            final(self).terminal@.queued == Seq::<CommandModel>::empty(),
            final(self).terminal@.raw_mode == old(self).terminal@.raw_mode,
            final(self).terminal@.size == old(self).terminal@.size,
            final(self).state() == old(self).state(),
    {
        let ghost q0 = self.terminal@.queued;
        let ghost st0 = self.state();
        let ghost sz = self.terminal@.size;
        self.terminal.hide_caret();
        self.terminal.move_caret_to(Position { col: 0, row: 0 });
        if self.should_quit {
            self.terminal.clear_screen();
            self.terminal.write(String::from_str("Goodbye.\r\n"));
        } else {
            self.draw_rows();
            self.draw_welcome_message();
            let cursor = self.cursor;
            self.terminal.move_caret_to(cursor);
        }
        self.terminal.show_caret();
        proof {
            assert(self.terminal@.queued =~= q0 + refresh_cmds(st0, sz));
        }
        let batch = self.terminal.execute();
        batch
    }

    /// The read–evaluate–refresh loop over a finite event stream: a first
    /// refresh, then one evaluated event and one refresh per iteration,
    /// until the quit latch is set or the stream is exhausted. Returns how
    /// many events were consumed and the concatenation of all flushed
    /// batches. Once quitting, no further event is consumed, and the last
    /// refresh is the farewell.
    pub fn repl(&mut self, events: &Vec<InputEvent>) -> (r: (usize, Vec<Command>))
        ensures
            final(self).state() == evaluate_seq(
                old(self).state(),
                events@,
                old(self).terminal@.size,
            ),
            r.0 == consumed_spec(old(self).state(), events@, old(self).terminal@.size),
            models(r.1@) == old(self).terminal@.queued + repl_trace(
                old(self).state(),
                events@,
                old(self).terminal@.size,
            ),
            final(self).terminal@.queued == Seq::<CommandModel>::empty(),
            final(self).terminal@.raw_mode == old(self).terminal@.raw_mode,
            final(self).terminal@.size == old(self).terminal@.size,
    {
        let ghost s0 = self.state();
        let ghost q0 = self.terminal@.queued;
        let ghost sz = self.terminal@.size;
        let ghost raw0 = self.terminal@.raw_mode;

        let mut trace = self.refresh_screen();
        let mut i: usize = 0;
        proof {
            assert(events@.subrange(0, events@.len() as int) =~= events@);
            assert(models(trace@) + loop_trace(s0, events@, sz) =~= q0 + repl_trace(
                s0,
                events@,
                sz,
            ));
        }
        while !self.should_quit && i < events.len()
            invariant
                i <= events@.len(),
                self.terminal@.queued == Seq::<CommandModel>::empty(),
                self.terminal@.raw_mode == raw0,
                self.terminal@.size == sz,
                evaluate_seq(
                    self.state(),
                    events@.subrange(i as int, events@.len() as int),
                    sz,
                ) == evaluate_seq(s0, events@, sz),
                i + consumed_spec(
                    self.state(),
                    events@.subrange(i as int, events@.len() as int),
                    sz,
                ) == consumed_spec(s0, events@, sz),
                models(trace@) + loop_trace(
                    self.state(),
                    events@.subrange(i as int, events@.len() as int),
                    sz,
                ) == q0 + repl_trace(s0, events@, sz),
            decreases events@.len() - i,
        {
            let ghost s_pre = self.state();
            let ghost rest_pre = events@.subrange(i as int, events@.len() as int);
            self.evaluate_event(&events[i]);
            let ghost s_mid = self.state();
            let ghost t_pre = trace@;
            let mut b = self.refresh_screen();
            let ghost b0 = b@;
            trace.append(&mut b);
            i = i + 1;
            let ghost rest_next = events@.subrange(i as int, events@.len() as int);
            proof {
                assert(rest_pre[0] == events@[i - 1]);
                assert(rest_pre.subrange(1, rest_pre.len() as int) =~= rest_next);
                lemma_models_concat(t_pre, b0);
                assert(models(b0) =~= refresh_cmds(s_mid, sz));
                assert(loop_trace(s_pre, rest_pre, sz) == refresh_cmds(s_mid, sz) + loop_trace(
                    s_mid,
                    rest_next,
                    sz,
                ));
                assert(models(trace@) + loop_trace(s_mid, rest_next, sz) =~= models(t_pre)
                    + loop_trace(s_pre, rest_pre, sz));
            }
        }
        proof {
            let rest = events@.subrange(i as int, events@.len() as int);
            if !self.should_quit {
                assert(rest =~= Seq::<InputEvent>::empty());
            }
            assert(loop_trace(self.state(), rest, sz) =~= Seq::<CommandModel>::empty());
            assert(models(trace@) + Seq::<CommandModel>::empty() =~= models(trace@));
        }
        (i, trace)
    }

    /// A whole run over a finite event stream: take the terminal into raw
    /// mode and clear it, run the loop, and restore cooked mode
    /// unconditionally — whatever the events were, the session ends with raw
    /// mode off. Returns how many events were consumed and every command the
    /// run produced, in order; the farewell line appears in that trace
    /// exactly once when the run ends quitting, and never otherwise.
    pub fn run(&mut self, events: &Vec<InputEvent>) -> (r: (usize, Vec<Command>))
        ensures
            final(self).state() == evaluate_seq(
                old(self).state(),
                events@,
                old(self).terminal@.size,
            ),
            !final(self).terminal@.raw_mode,
            final(self).terminal@.size == old(self).terminal@.size,
            final(self).terminal@.queued == Seq::<CommandModel>::empty(),
            r.0 == consumed_spec(old(self).state(), events@, old(self).terminal@.size),
            models(r.1@) == old(self).terminal@.queued + seq![
                CommandModel::EnableRawMode,
                CommandModel::ClearScreen,
            ] + repl_trace(old(self).state(), events@, old(self).terminal@.size) + seq![
                CommandModel::DisableRawMode,
            ],
            old(self).terminal@.queued == Seq::<CommandModel>::empty() ==> farewell_count(
                models(r.1@),
            ) == if evaluate_seq(old(self).state(), events@, old(self).terminal@.size).should_quit {
                1nat
            } else {
                0nat
            },
    {
        let ghost s0 = self.state();
        let ghost q0 = self.terminal@.queued;
        let ghost sz = self.terminal@.size;
        self.terminal.initialize();
        let (consumed, mut trace) = self.repl(events);
        self.terminal.terminate();
        let ghost t_pre = trace@;
        let mut tail = self.terminal.execute();
        let ghost tail0 = tail@;
        trace.append(&mut tail);
        proof {
            lemma_models_concat(t_pre, tail0);
            let init = seq![CommandModel::EnableRawMode, CommandModel::ClearScreen];
            let fin = seq![CommandModel::DisableRawMode];
            let body = repl_trace(s0, events@, sz);
            assert(models(tail0) =~= fin);
            assert(models(trace@) =~= q0 + init + body + fin);
            if q0 == Seq::<CommandModel>::empty() {
                lemma_exactly_one_farewell(s0, events@, sz);
                lemma_farewell_count_concat(q0 + init + body, fin);
                lemma_farewell_count_concat(q0 + init, body);
                lemma_farewell_count_concat(q0, init);
                assert(q0 + init =~= seq![CommandModel::EnableRawMode] + seq![
                    CommandModel::ClearScreen,
                ]);
                lemma_farewell_count_concat(
                    seq![CommandModel::EnableRawMode],
                    seq![CommandModel::ClearScreen],
                );
                lemma_farewell_count_singleton(CommandModel::EnableRawMode);
                lemma_farewell_count_singleton(CommandModel::ClearScreen);
                lemma_farewell_count_singleton(CommandModel::DisableRawMode);
            }
        }
        (consumed, trace)
    }
}

} // verus!
