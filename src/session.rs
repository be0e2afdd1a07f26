//! The interactive session: a state machine that takes one input event at a
//! time, updates the grid, cursor, rule and display settings, and tells the
//! terminal side what to draw.
use vstd::prelude::*;
use crate::display::{chars_to_string, glyph_ok, toolbar_chars, toolbar_text, valid_chars};
use crate::grid::{
    blank, grid_text, height_of, next_gen, rect, resized, step, toggled, width_of, Grid,
};
use crate::playback::{
    frame_micros, frame_micros_spec, rate_table, rate_tenths, remaining_wait, DEFAULT_RATE, RATE_COUNT,
};

verus! {

/// One event from the terminal.
#[derive(Clone, Copy, Debug, PartialEq, Eq, Structural)]
pub enum Input {
    /// A key that produces a character.
    Char(char),
    /// Any other key or terminal event.
    OtherKey,
    /// The terminal now has this many columns and rows.
    Resize(u16, u16),
    /// A wait for input ran out with no event.
    Idle,
}

/// An action that waits for the same key once more before it happens.
#[derive(Clone, Copy, Debug, PartialEq, Eq, Structural)]
pub enum Confirm {
    Clear,
    Quit,
}

#[derive(Clone, Copy, Debug, PartialEq, Eq, Structural)]
pub enum Mode {
    /// Moving the cursor, editing cells and settings.
    Viewing,
    /// A clear or quit key was pressed once.
    Pending(Confirm),
    /// The help text is shown.
    Help,
    /// Waiting for the character for live cells.
    CaptureFg,
    /// Waiting for the character for dead cells.
    CaptureBg,
    /// Generations follow each other at the selected rate.
    Playback,
    /// The session has ended.
    Finished,
}

/// What the terminal side does after an event.
#[derive(Clone, Copy, Debug, PartialEq, Eq, Structural)]
pub enum Action {
    /// Nothing to draw; only the cursor may have moved.
    Stay,
    /// Draw the grid and the status line.
    Redraw,
    /// Blank the screen, then draw the grid and the status line.
    Repaint,
    /// Blank the screen and show the help text.
    ShowHelp,
    /// End the session.
    Quit,
}

/// The state of a session as plain values.
pub struct SessionView {
    pub grid: Seq<Seq<bool>>,
    pub col: nat,
    pub row: nat,
    pub live: nat,
    pub birth: nat,
    pub fg: char,
    pub bg: char,
    pub rate: nat,
    pub cols: nat,
    pub rows: nat,
    pub mode: Mode,
}

/// Grid columns for a terminal `cols` wide.
pub open spec fn grid_w(cols: nat) -> nat {
    if cols >= 1 { cols } else { 1 }
}

/// Grid rows for a terminal `rows` high: all but the status line.
pub open spec fn grid_h(rows: nat) -> nat {
    if rows >= 2 { (rows - 1) as nat } else { 1 }
}

pub open spec fn view_wf(m: SessionView) -> bool {
    &&& rect(m.grid)
    &&& width_of(m.grid) == grid_w(m.cols)
    &&& height_of(m.grid) == grid_h(m.rows)
    &&& m.col < width_of(m.grid)
    &&& m.row < height_of(m.grid)
    &&& m.live <= 9
    &&& m.birth <= 9
    &&& m.fg != m.bg
    &&& m.rate < RATE_COUNT
    &&& m.cols <= u16::MAX
    &&& m.rows <= u16::MAX
}

/// A fresh session on a terminal of `cols` by `rows`: an empty grid, the
/// cursor near the middle, the classic rule, and the help text on screen.
pub open spec fn initial(cols: nat, rows: nat) -> SessionView {
    let w = grid_w(cols);
    let h = grid_h(rows);
    SessionView {
        grid: blank(w, h),
        col: if cols / 2 < w { cols / 2 } else { (w - 1) as nat },
        row: if rows / 2 < h { rows / 2 } else { (h - 1) as nat },
        live: 2,
        birth: 3,
        fg: 'O',
        bg: ' ',
        rate: DEFAULT_RATE as nat,
        cols,
        rows,
        mode: Mode::Help,
    }
}

pub open spec fn with_mode(m: SessionView, mode: Mode) -> SessionView {
    SessionView { mode, ..m }
}

/// The terminal now has `c` columns and `r` rows: the grid follows, the
/// cursor is pulled back inside it, and a pending confirmation is dropped.
pub open spec fn after_resize(m: SessionView, c: nat, r: nat) -> SessionView {
    let w = grid_w(c);
    let h = grid_h(r);
    SessionView {
        grid: resized(m.grid, w, h),
        col: if m.col < w { m.col } else { (w - 1) as nat },
        row: if m.row < h { m.row } else { (h - 1) as nat },
        cols: c,
        rows: r,
        mode: if m.mode is Pending { Mode::Viewing } else { m.mode },
        ..m
    }
}

pub open spec fn less_one(n: nat) -> nat {
    if n > 0 { (n - 1) as nat } else { 0 }
}

pub open spec fn up_to_nine(n: nat) -> nat {
    if n < 9 { n + 1 } else { 9 }
}

/// A key pressed while viewing.
pub open spec fn on_view_key(m: SessionView, c: char) -> (SessionView, Action) {
    if c == 'w' {
        (SessionView { row: less_one(m.row), ..m }, Action::Stay)
    } else if c == 's' {
        (SessionView { row: if m.row + 1 < height_of(m.grid) { m.row + 1 } else { m.row }, ..m }, Action::Stay)
    } else if c == 'a' {
        (SessionView { col: less_one(m.col), ..m }, Action::Stay)
    } else if c == 'd' {
        (SessionView { col: if m.col + 1 < width_of(m.grid) { m.col + 1 } else { m.col }, ..m }, Action::Stay)
    } else if c == ' ' {
        (SessionView { grid: toggled(m.grid, m.col as int, m.row as int), ..m }, Action::Redraw)
    } else if c == '-' {
        (SessionView { live: less_one(m.live), ..m }, Action::Redraw)
    } else if c == '=' {
        (SessionView { live: up_to_nine(m.live), ..m }, Action::Redraw)
    } else if c == '[' {
        (SessionView { birth: less_one(m.birth), ..m }, Action::Redraw)
    } else if c == ']' {
        (SessionView { birth: up_to_nine(m.birth), ..m }, Action::Redraw)
    } else if c == ',' {
        (SessionView { rate: less_one(m.rate), ..m }, Action::Redraw)
    } else if c == '.' {
        (SessionView { rate: if m.rate + 1 < RATE_COUNT { m.rate + 1 } else { m.rate }, ..m }, Action::Redraw)
    } else if c == 'e' {
        (SessionView { grid: next_gen(m.grid, m.live as int, m.birth as int), ..m }, Action::Redraw)
    } else if c == 'f' {
        (with_mode(m, Mode::Playback), Action::Stay)
    } else if c == 'x' {
        (with_mode(m, Mode::Pending(Confirm::Clear)), Action::Stay)
    } else if c == 'q' {
        (with_mode(m, Mode::Pending(Confirm::Quit)), Action::Stay)
    } else if c == 'c' {
        (with_mode(m, Mode::CaptureFg), Action::Stay)
    } else if c == 'h' {
        (with_mode(m, Mode::Help), Action::ShowHelp)
    } else {
        (m, Action::Stay)
    }
}

/// A captured glyph replaces `cur` only if it is acceptable and differs from
/// the other glyph.
pub open spec fn captured(cur: char, other: char, c: char) -> char {
    if glyph_ok(c) && c != other { c } else { cur }
}

/// The state and action that follow event `ev` in state `m`.
pub open spec fn next_state(m: SessionView, ev: Input) -> (SessionView, Action) {
    if m.mode is Finished {
        (m, Action::Stay)
    } else if let Input::Resize(c, r) = ev {
        (after_resize(m, c as nat, r as nat), if m.mode is Help { Action::ShowHelp } else { Action::Repaint })
    } else if ev is Idle && !(m.mode is Playback) {
        (m, Action::Stay)
    } else {
        match m.mode {
            Mode::Viewing => match ev {
                Input::Char(c) => on_view_key(m, c),
                _ => (m, Action::Stay),
            },
            Mode::Pending(Confirm::Clear) => if ev == Input::Char('x') {
                (SessionView { grid: blank(width_of(m.grid), height_of(m.grid)), mode: Mode::Viewing, ..m }, Action::Redraw)
            } else {
                (with_mode(m, Mode::Viewing), Action::Stay)
            },
            Mode::Pending(Confirm::Quit) => if ev == Input::Char('q') {
                (with_mode(m, Mode::Finished), Action::Quit)
            } else {
                (with_mode(m, Mode::Viewing), Action::Stay)
            },
            Mode::Help => if ev == Input::Char('h') {
                (with_mode(m, Mode::Viewing), Action::Repaint)
            } else {
                (m, Action::Stay)
            },
            Mode::CaptureFg => match ev {
                Input::Char(c) => (SessionView { fg: captured(m.fg, m.bg, c), mode: Mode::CaptureBg, ..m }, Action::Redraw),
                _ => (with_mode(m, Mode::CaptureBg), Action::Redraw),
            },
            Mode::CaptureBg => match ev {
                Input::Char(c) => (SessionView { bg: captured(m.bg, m.fg, c), mode: Mode::Viewing, ..m }, Action::Redraw),
                _ => (with_mode(m, Mode::Viewing), Action::Redraw),
            },
            Mode::Playback => if ev == Input::Char('f') {
                (with_mode(m, Mode::Viewing), Action::Stay)
            } else {
                (SessionView { grid: next_gen(m.grid, m.live as int, m.birth as int), ..m }, Action::Redraw)
            },
            Mode::Finished => (m, Action::Stay),
        }
    }
}

pub open spec fn screen_cursor_of(m: SessionView) -> (u16, u16) {
    let status = (if m.rows >= 1 { m.rows - 1 } else { 0 }) as u16;
    match m.mode {
        Mode::CaptureFg => (4, status),
        Mode::CaptureBg => (11, status),
        _ => (m.col as u16, m.row as u16),
    }
}

/// The text drawn for state `m`: the grid, then the status line.
pub open spec fn frame_of(m: SessionView) -> Seq<char> {
    grid_text(m.grid, m.fg, m.bg) + seq!['\n'] + toolbar_text(m.fg, m.bg, m.live, m.birth, rate_table()[m.rate as int] as nat)
}

/// A session: the grid, the cursor, the rule, the glyphs, the frame rate and
/// the current mode.
pub struct Session {
    grid: Grid,
    col: usize,
    row: usize,
    live: u32,
    birth: u32,
    fg: char,
    bg: char,
    rate: usize,
    cols: u16,
    rows: u16,
    mode: Mode,
}

impl View for Session {
    type V = SessionView;

    closed spec fn view(&self) -> SessionView {
        SessionView {
            grid: self.grid@,
            col: self.col as nat,
            row: self.row as nat,
            live: self.live as nat,
            birth: self.birth as nat,
            fg: self.fg,
            bg: self.bg,
            rate: self.rate as nat,
            cols: self.cols as nat,
            rows: self.rows as nat,
            mode: self.mode,
        }
    }
}

fn grid_cols(cols: u16) -> (r: usize)
    ensures
        r == grid_w(cols as nat),
{
    if cols >= 1 { cols as usize } else { 1 }
}

fn grid_rows(rows: u16) -> (r: usize)
    ensures
        r == grid_h(rows as nat),
{
    if rows >= 2 { (rows - 1) as usize } else { 1 }
}

impl Session {
    pub open spec fn wf(&self) -> bool {
        view_wf(self@)
    }

    /// A new session on a terminal of `cols` by `rows`; it starts by showing
    /// the help text.
    pub fn new(cols: u16, rows: u16) -> (r: Session)
        ensures
            r.wf(),
            r@ == initial(cols as nat, rows as nat),
    {
        let w = grid_cols(cols);
        let h = grid_rows(rows);
        let grid = Grid::new(w, h);
        let half_c = (cols / 2) as usize;
        let half_r = (rows / 2) as usize;
        let col = if half_c < w { half_c } else { w - 1 };
        let row = if half_r < h { half_r } else { h - 1 };
        proof {
            lemma_shapes(grid@, w as nat, h as nat, 0, 0, 0, 0);
        }
        Session { grid, col, row, live: 2, birth: 3, fg: 'O', bg: ' ', rate: DEFAULT_RATE, cols, rows, mode: Mode::Help }
    }

    /// Takes one event and says what to draw.
    pub fn handle(&mut self, ev: Input) -> (r: Action)
        requires
            old(self).wf(),
        ensures
            final(self).wf(),
            (final(self)@, r) == next_state(old(self)@, ev),
    {
        proof {
            lemma_next_state_wf(self@, ev);
        }
        if let Mode::Finished = self.mode {
            return Action::Stay;
        }
        if let Input::Resize(c, r) = ev {
            let help = matches!(self.mode, Mode::Help);
            self.resize(c, r);
            return if help { Action::ShowHelp } else { Action::Repaint };
        }
        if let Input::Idle = ev {
            if !matches!(self.mode, Mode::Playback) {
                return Action::Stay;
            }
        }
        match self.mode {
            Mode::Viewing => match ev {
                Input::Char(c) => self.view_key(c),
                _ => Action::Stay,
            },
            Mode::Pending(k) => {
                self.mode = Mode::Viewing;
                match (k, ev) {
                    (Confirm::Clear, Input::Char('x')) => {
                        self.grid = Grid::new(self.grid.cols(), self.grid.rows());
                        Action::Redraw
                    },
                    (Confirm::Quit, Input::Char('q')) => {
                        self.mode = Mode::Finished;
                        Action::Quit
                    },
                    _ => Action::Stay,
                }
            },
            Mode::Help => {
                if ev == Input::Char('h') {
                    self.mode = Mode::Viewing;
                    Action::Repaint
                } else {
                    Action::Stay
                }
            },
            Mode::CaptureFg => {
                if let Input::Char(c) = ev {
                    if valid_chars(c) && c != self.bg {
                        self.fg = c;
                    }
                }
                self.mode = Mode::CaptureBg;
                Action::Redraw
            },
            Mode::CaptureBg => {
                if let Input::Char(c) = ev {
                    if valid_chars(c) && c != self.fg {
                        self.bg = c;
                    }
                }
                self.mode = Mode::Viewing;
                Action::Redraw
            },
            Mode::Playback => {
                if ev == Input::Char('f') {
                    self.mode = Mode::Viewing;
                    Action::Stay
                } else {
                    self.grid = step(&self.grid, self.live, self.birth);
                    Action::Redraw
                }
            },
            Mode::Finished => Action::Stay,
        }
    }

    pub fn grid(&self) -> (r: &Grid)
        ensures
            r@ == self@.grid,
    {
        &self.grid
    }

    /// Column and row of the cursor on the grid.
    pub fn cursor(&self) -> (r: (usize, usize))
        ensures
            r.0 == self@.col,
            r.1 == self@.row,
    {
        (self.col, self.row)
    }

    pub fn live(&self) -> (r: u32)
        ensures
            r == self@.live,
    {
        self.live
    }

    pub fn birth(&self) -> (r: u32)
        ensures
            r == self@.birth,
    {
        self.birth
    }

    pub fn fg(&self) -> (r: char)
        ensures
            r == self@.fg,
    {
        self.fg
    }

    pub fn bg(&self) -> (r: char)
        ensures
            r == self@.bg,
    {
        self.bg
    }

    /// Index of the selected frame rate in the table.
    pub fn rate_index(&self) -> (r: usize)
        ensures
            r == self@.rate,
    {
        self.rate
    }

    pub fn mode(&self) -> (r: Mode)
        ensures
            r == self@.mode,
    {
        self.mode
    }

    /// Columns and rows of the terminal as last reported.
    pub fn terminal_size(&self) -> (r: (u16, u16))
        ensures
            r.0 == self@.cols,
            r.1 == self@.rows,
    {
        (self.cols, self.rows)
    }

    /// The grid followed by the status line.
    pub fn frame_text(&self) -> (r: String)
        requires
            self.wf(),
        ensures
            r@ == frame_of(self@),
    {
        let mut t = self.grid.text_chars(self.fg, self.bg);
        t.push('\n');
        let mut bar = toolbar_chars(self.fg, self.bg, self.live, self.birth, rate_tenths(self.rate));
        t.append(&mut bar);
        chars_to_string(&t)
    }

    /// Where the terminal cursor stands: on the status line where a glyph
    /// is being asked for, else on the grid cursor.
    pub fn screen_cursor(&self) -> (r: (u16, u16))
        requires
            self.wf(),
        ensures
            r == screen_cursor_of(self@),
    {
        let status = if self.rows >= 1 { self.rows - 1 } else { 0 };
        match self.mode {
            Mode::CaptureFg => (4, status),
            Mode::CaptureBg => (11, status),
            _ => (self.col as u16, self.row as u16),
        }
    }

    /// How long playback waits for input after a frame that took
    /// `elapsed_us` microseconds at the selected rate.
    pub fn frame_wait(&self, elapsed_us: u64) -> (r: u64)
        requires
            self.wf(),
        ensures
            r == (if (elapsed_us as int) < frame_micros_spec(self@.rate as int) {
                frame_micros_spec(self@.rate as int) - elapsed_us
            } else {
                0
            }),
    {
        remaining_wait(frame_micros(self.rate), elapsed_us)
    }

    fn resize(&mut self, c: u16, r: u16)
        requires
            old(self).wf(),
        ensures
            final(self)@ == after_resize(old(self)@, c as nat, r as nat),
    {
        let w = grid_cols(c);
        let h = grid_rows(r);
        self.grid.resize(w, h);
        if self.col >= w {
            self.col = w - 1;
        }
        if self.row >= h {
            self.row = h - 1;
        }
        self.cols = c;
        self.rows = r;
        if let Mode::Pending(_) = self.mode {
            self.mode = Mode::Viewing;
        }
    }

    fn view_key(&mut self, c: char) -> (r: Action)
        requires
            old(self).wf(),
            old(self).mode == Mode::Viewing,
        ensures
            (final(self)@, r) == on_view_key(old(self)@, c),
    {
        proof {
            assert(self.grid@[self.row as int].len() == self.grid@[0].len());
        }
        if c == 'w' {
            if self.row > 0 {
                self.row -= 1;
            }
            Action::Stay
        } else if c == 's' {
            if self.row + 1 < self.grid.rows() {
                self.row += 1;
            }
            Action::Stay
        } else if c == 'a' {
            if self.col > 0 {
                self.col -= 1;
            }
            Action::Stay
        } else if c == 'd' {
            if self.col + 1 < self.grid.cols() {
                self.col += 1;
            }
            Action::Stay
        } else if c == ' ' {
            self.grid.toggle(self.col, self.row);
            Action::Redraw
        } else if c == '-' {
            if self.live > 0 {
                self.live -= 1;
            }
            Action::Redraw
        } else if c == '=' {
            if self.live < 9 {
                self.live += 1;
            }
            Action::Redraw
        } else if c == '[' {
            if self.birth > 0 {
                self.birth -= 1;
            }
            Action::Redraw
        } else if c == ']' {
            if self.birth < 9 {
                self.birth += 1;
            }
            Action::Redraw
        } else if c == ',' {
            if self.rate > 0 {
                self.rate -= 1;
            }
            Action::Redraw
        } else if c == '.' {
            if self.rate + 1 < RATE_COUNT {
                self.rate += 1;
            }
            Action::Redraw
        } else if c == 'e' {
            self.grid = step(&self.grid, self.live, self.birth);
            Action::Redraw
        } else if c == 'f' {
            self.mode = Mode::Playback;
            Action::Stay
        } else if c == 'x' {
            self.mode = Mode::Pending(Confirm::Clear);
            Action::Stay
        } else if c == 'q' {
            self.mode = Mode::Pending(Confirm::Quit);
            Action::Stay
        } else if c == 'c' {
            self.mode = Mode::CaptureFg;
            Action::Stay
        } else if c == 'h' {
            self.mode = Mode::Help;
            Action::ShowHelp
        } else {
            Action::Stay
        }
    }
}

/// Quitting takes the quit key twice in a row. Pressed twice, it ends the
/// session; pressed once, followed by any other event, and pressed again, it
/// only asks for confirmation once more.
pub proof fn lemma_quit_confirm(m: SessionView, other: Input)
    requires
        view_wf(m),
        m.mode == Mode::Viewing,
        other != Input::Char('q'),
        other != Input::Idle,
    ensures
        ({
            let (twice, act) = next_state(next_state(m, Input::Char('q')).0, Input::Char('q'));
            twice.mode == Mode::Finished && act == Action::Quit
        }),
        ({
            let armed = next_state(m, Input::Char('q')).0;
            let interrupted = next_state(armed, other).0;
            let (again, act) = next_state(interrupted, Input::Char('q'));
            again.mode == Mode::Pending(Confirm::Quit) && act == Action::Stay
        }),
{
}

proof fn lemma_shapes(g: Seq<Seq<bool>>, w: nat, h: nat, live: int, birth: int, x: int, y: int)
    requires
        rect(g),
        w >= 1,
        h >= 1,
    ensures
        rect(resized(g, w, h)),
        width_of(resized(g, w, h)) == w,
        height_of(resized(g, w, h)) == h,
        rect(blank(w, h)),
        width_of(blank(w, h)) == w,
        height_of(blank(w, h)) == h,
        rect(next_gen(g, live, birth)),
        width_of(next_gen(g, live, birth)) == width_of(g),
        height_of(next_gen(g, live, birth)) == height_of(g),
        0 <= y < g.len() && 0 <= x < width_of(g) ==> {
            &&& rect(toggled(g, x, y))
            &&& width_of(toggled(g, x, y)) == width_of(g)
            &&& height_of(toggled(g, x, y)) == height_of(g)
        },
{
    if 0 <= y < g.len() && 0 <= x < width_of(g) {
        let t = toggled(g, x, y);
        assert forall|i: int| 0 <= i < t.len() implies #[trigger] t[i].len() == t[0].len() by {
            assert(g[i].len() == g[0].len());
            assert(g[y].len() == g[0].len());
        }
    }
}

/// Every event keeps a well-formed state well-formed: the grid stays
/// rectangular and sized to the terminal, the cursor stays on the grid, the
/// thresholds stay within `0..=9`, the glyphs stay distinct and the rate index
/// stays inside the table.
pub proof fn lemma_next_state_wf(m: SessionView, ev: Input)
    requires
        view_wf(m),
    ensures
        view_wf(next_state(m, ev).0),
{
    lemma_shapes(m.grid, 1, 1, m.live as int, m.birth as int, m.col as int, m.row as int);
    assert(m.grid[m.row as int].len() == m.grid[0].len());
    if let Input::Resize(c, r) = ev {
        lemma_shapes(m.grid, grid_w(c as nat), grid_h(r as nat), m.live as int, m.birth as int, 0, 0);
    }
    lemma_shapes(m.grid, width_of(m.grid), height_of(m.grid), m.live as int, m.birth as int, 0, 0);
}

} // verus!
