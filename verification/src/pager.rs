//! The scrolling pager: page/row/viewport arithmetic over a fixed list of
//! pre-rendered display lines, and the key-binding state machine that drives
//! it.

use vstd::prelude::*;

use crate::config::PagerConfig;

verus! {

use vstd::arithmetic::div_mod::{
    lemma_div_nonincreasing,
    lemma_div_plus_one,
    lemma_fundamental_div_mod,
    lemma_div_multiples_vanish,
};
use vstd::arithmetic::mul::{lemma_mul_basics, lemma_mul_inequality, lemma_mul_nonnegative};

/// The pure navigation state of the pager: current row and page, page size,
/// total number of rows, and the last known terminal dimensions.
#[derive(Debug, Clone, Copy)]
pub struct PagerState {
    pub current_page: usize,
    pub total_pages: usize,
    pub rows_per_page: usize,
    pub total_rows: usize,
    pub current_row: usize,
    pub terminal_height: u16,
    pub terminal_width: u16,
}

/// The state laid down by `PagerState::new`: the cursor on row 0 of page 0,
/// and the page size taken from the terminal height.
pub open spec fn spec_new_state(
    total_rows: usize,
    terminal_width: u16,
    terminal_height: u16,
) -> PagerState {
    PagerState {
        current_page: 0,
        total_pages: spec_total_pages(total_rows as int, terminal_height as int) as usize,
        rows_per_page: terminal_height as usize,
        total_rows,
        current_row: 0,
        terminal_height,
        terminal_width,
    }
}

/// The largest row index a cursor may sit on: `total_rows - 1`, or `0` for
/// empty content.
pub open spec fn spec_max_row(total_rows: int) -> int {
    if total_rows == 0 {
        0
    } else {
        total_rows - 1
    }
}

/// The page that a given row falls on; page `0` when the terminal has zero
/// height, so that no division by zero ever arises.
pub open spec fn spec_page_of(row: int, rows_per_page: int) -> int {
    if rows_per_page <= 0 {
        0
    } else {
        row / rows_per_page
    }
}

/// The number of pages: the page of the last row, plus one. For
/// `rows_per_page >= 1` and `total_rows >= 1` this equals
/// `ceil(total_rows / rows_per_page)`; it is `1` when the content is empty or
/// the terminal has zero height.
pub open spec fn spec_total_pages(total_rows: int, rows_per_page: int) -> int {
    spec_page_of(spec_max_row(total_rows), rows_per_page) + 1
}

impl PagerState {
    /// Well-formedness: the derived fields agree with their definitions and
    /// the cursor is in bounds.
    pub open spec fn wf(self) -> bool {
        &&& self.rows_per_page == self.terminal_height as int
        &&& self.total_pages == spec_total_pages(self.total_rows as int, self.rows_per_page as int)
        &&& self.current_row as int <= spec_max_row(self.total_rows as int)
        &&& self.current_page == spec_page_of(self.current_row as int, self.rows_per_page as int)
    }

    /// Build the state for `total_rows` content lines on a terminal of the
    /// given size; the cursor starts on row 0 of page 0.
    pub fn new(total_rows: usize, terminal_width: u16, terminal_height: u16) -> (s: Self)
        ensures
            s.wf(),
            s.current_row == 0,
            s.current_page == 0,
            s.total_rows == total_rows,
            s.terminal_width == terminal_width,
            s.terminal_height == terminal_height,
            s.rows_per_page == terminal_height as usize,
            s.total_pages == spec_total_pages(total_rows as int, terminal_height as int),
            terminal_height == 0 ==> s.total_pages == 1,
            s == spec_new_state(total_rows, terminal_width, terminal_height),
    {
        let rows_per_page = terminal_height as usize;
        let total_pages = compute_total_pages(total_rows, rows_per_page);
        Self {
            current_page: 0,
            total_pages,
            rows_per_page,
            total_rows,
            current_row: 0,
            terminal_height,
            terminal_width,
        }
    }
}

/// `spec_total_pages`, computed without overflow: the quotient is at most
/// `max_row`, which is below `usize::MAX` whenever the `+ 1` matters.
fn compute_total_pages(total_rows: usize, rows_per_page: usize) -> (r: usize)
    ensures
        r == spec_total_pages(total_rows as int, rows_per_page as int),
        r >= 1,
{
    if rows_per_page == 0 {
        1
    } else {
        let max_row: usize = if total_rows == 0 {
            0
        } else {
            total_rows - 1
        };
        proof {
            lemma_div_nonincreasing(max_row as int, rows_per_page as int);
        }
        max_row / rows_per_page + 1
    }
}

/// `spec_page_of`, computed with a guard against a zero-height terminal.
fn page_of(row: usize, rows_per_page: usize) -> (r: usize)
    ensures
        r == spec_page_of(row as int, rows_per_page as int),
        r <= row,
{
    if rows_per_page == 0 {
        0
    } else {
        proof {
            lemma_div_nonincreasing(row as int, rows_per_page as int);
        }
        row / rows_per_page
    }
}

/// A page index at most `max_row / rpp` starts on a row at most `max_row`,
/// and dividing that start row back by `rpp` recovers the page index.
proof fn lemma_page_start_bounds(max_row: int, rpp: int, page: int)
    requires
        0 <= max_row,
        0 < rpp,
        0 <= page <= max_row / rpp,
    ensures
        page * rpp <= max_row,
        (page * rpp) / rpp == page,
{
    lemma_fundamental_div_mod(max_row, rpp);
    lemma_mul_inequality(page, max_row / rpp, rpp);
    lemma_div_multiples_vanish(page, rpp);
}

// ---------------------------------------------------------------------------
// Specification-level transitions. Each mutating operation of `PagerState` is
// mirrored by a spec function, and the executable method promises to land
// exactly on the mirrored state.
// ---------------------------------------------------------------------------

/// `go_to_page`: clamp the requested page to `[0, total_pages - 1]` and put
/// the cursor on that page's first row.
pub open spec fn spec_go_to_page(s: PagerState, page: int) -> PagerState {
    let last = s.total_pages - 1;
    let target = if page < last {
        page
    } else {
        last
    };
    PagerState {
        current_page: target as usize,
        current_row: (target * s.rows_per_page) as usize,
        ..s
    }
}

/// `next_page`: one page forward, a no-op on the last page.
pub open spec fn spec_next_page(s: PagerState) -> PagerState {
    if s.current_page < s.total_pages - 1 {
        spec_go_to_page(s, s.current_page + 1)
    } else {
        s
    }
}

/// `prev_page`: one page back, a no-op on the first page.
pub open spec fn spec_prev_page(s: PagerState) -> PagerState {
    if s.current_page > 0 {
        spec_go_to_page(s, s.current_page - 1)
    } else {
        s
    }
}

/// `go_to_first` / `go_to_last`: jump to the first or the last page.
pub open spec fn spec_go_to_first(s: PagerState) -> PagerState {
    spec_go_to_page(s, 0)
}

pub open spec fn spec_go_to_last(s: PagerState) -> PagerState {
    spec_go_to_page(s, s.total_pages - 1)
}

/// `next_row`: move the cursor one row down, a no-op on the last row.
pub open spec fn spec_next_row(s: PagerState) -> PagerState {
    if s.current_row < spec_max_row(s.total_rows as int) {
        PagerState {
            current_row: (s.current_row + 1) as usize,
            current_page: spec_page_of(
                s.current_row + 1,
                s.rows_per_page as int,
            ) as usize,
            ..s
        }
    } else {
        s
    }
}

/// `prev_row`: move the cursor one row up, a no-op on row 0.
pub open spec fn spec_prev_row(s: PagerState) -> PagerState {
    if s.current_row > 0 {
        PagerState {
            current_row: (s.current_row - 1) as usize,
            current_page: spec_page_of(
                s.current_row - 1,
                s.rows_per_page as int,
            ) as usize,
            ..s
        }
    } else {
        s
    }
}

/// `scroll_down`: move the cursor `lines` rows down, clamped to the last row.
pub open spec fn spec_scroll_down(s: PagerState, lines: int) -> PagerState {
    let max_row = spec_max_row(s.total_rows as int);
    let row = if s.current_row + lines <= max_row {
        s.current_row + lines
    } else {
        max_row
    };
    PagerState {
        current_row: row as usize,
        current_page: spec_page_of(row, s.rows_per_page as int) as usize,
        ..s
    }
}

/// `scroll_up`: move the cursor `lines` rows up, clamped to row 0.
pub open spec fn spec_scroll_up(s: PagerState, lines: int) -> PagerState {
    let row = if s.current_row - lines >= 0 {
        s.current_row - lines
    } else {
        0
    };
    PagerState {
        current_row: row as usize,
        current_page: spec_page_of(row, s.rows_per_page as int) as usize,
        ..s
    }
}

/// `resize`: adopt the new dimensions, recompute the derived page fields, and
/// keep the cursor where it is.
pub open spec fn spec_resize(s: PagerState, width: u16, height: u16) -> PagerState {
    PagerState {
        terminal_width: width,
        terminal_height: height,
        rows_per_page: height as usize,
        total_pages: spec_total_pages(s.total_rows as int, height as int) as usize,
        current_page: spec_page_of(s.current_row as int, height as int) as usize,
        ..s
    }
}

impl PagerState {
    /// The first visible row.
    pub open spec fn spec_viewport_start(self) -> int {
        self.current_row as int
    }

    /// One past the last visible row: `min(current_row + rows_per_page,
    /// total_rows)`.
    pub open spec fn spec_viewport_end(self) -> int {
        if self.current_row + self.rows_per_page <= self.total_rows {
            self.current_row + self.rows_per_page
        } else {
            self.total_rows as int
        }
    }

    /// The first row of the current page.
    pub open spec fn spec_page_start(self) -> int {
        self.current_page * self.rows_per_page
    }

    /// One past the last row of the current page: `min(page_start +
    /// rows_per_page, total_rows)`.
    pub open spec fn spec_page_end(self) -> int {
        if self.spec_page_start() + self.rows_per_page <= self.total_rows {
            self.spec_page_start() + self.rows_per_page
        } else {
            self.total_rows as int
        }
    }

    /// Clamps `page` to `[0, total_pages - 1]`, makes it current, and puts the
    /// cursor on its first row.
    pub fn go_to_page(&mut self, page: usize)
        requires
            old(self).wf(),
        ensures
            final(self).wf(),
            *final(self) == spec_go_to_page(*old(self), page as int),
            final(self).current_page < final(self).total_pages,
    {
        let last = self.total_pages - 1;
        let target = if page < last {
            page
        } else {
            last
        };
        proof {
            let rpp = self.rows_per_page as int;
            let mr = spec_max_row(self.total_rows as int);
            if rpp > 0 {
                lemma_page_start_bounds(mr, rpp, target as int);
                lemma_mul_nonnegative(target as int, rpp);
            } else {
                lemma_mul_basics(target as int);
            }
        }
        self.current_page = target;
        self.current_row = target * self.rows_per_page;
    }

    /// One page forward; a no-op on the last page.
    pub fn next_page(&mut self)
        requires
            old(self).wf(),
        ensures
            final(self).wf(),
            *final(self) == spec_next_page(*old(self)),
    {
        if self.current_page < self.total_pages - 1 {
            let page = self.current_page + 1;
            self.go_to_page(page);
        }
    }

    /// One page back; a no-op on the first page.
    pub fn prev_page(&mut self)
        requires
            old(self).wf(),
        ensures
            final(self).wf(),
            *final(self) == spec_prev_page(*old(self)),
    {
        if self.current_page > 0 {
            let page = self.current_page - 1;
            self.go_to_page(page);
        }
    }

    /// One row down; a no-op on the last row. The cursor never leaves
    /// `[0, total_rows - 1]`.
    pub fn next_row(&mut self)
        requires
            old(self).wf(),
        ensures
            final(self).wf(),
            *final(self) == spec_next_row(*old(self)),
            final(self).current_row as int <= spec_max_row(old(self).total_rows as int),
    {
        let max_row: usize = if self.total_rows == 0 {
            0
        } else {
            self.total_rows - 1
        };
        if self.current_row < max_row {
            self.current_row = self.current_row + 1;
            self.current_page = page_of(self.current_row, self.rows_per_page);
        }
    }

    /// One row up; a no-op on row 0. The cursor never leaves
    /// `[0, total_rows - 1]`.
    pub fn prev_row(&mut self)
        requires
            old(self).wf(),
        ensures
            final(self).wf(),
            *final(self) == spec_prev_row(*old(self)),
            final(self).current_row as int <= spec_max_row(old(self).total_rows as int),
    {
        if self.current_row > 0 {
            self.current_row = self.current_row - 1;
            self.current_page = page_of(self.current_row, self.rows_per_page);
        }
    }

    /// Jump to the first page: the cursor lands on row 0.
    pub fn go_to_first(&mut self)
        requires
            old(self).wf(),
        ensures
            final(self).wf(),
            *final(self) == spec_go_to_first(*old(self)),
            final(self).current_row == 0,
            final(self).current_page == 0,
    {
        self.go_to_page(0);
        proof {
            lemma_mul_basics(old(self).rows_per_page as int);
        }
    }

    /// Jump to the last page.
    pub fn go_to_last(&mut self)
        requires
            old(self).wf(),
        ensures
            final(self).wf(),
            *final(self) == spec_go_to_last(*old(self)),
            final(self).current_page == old(self).total_pages - 1,
    {
        let page = self.total_pages - 1;
        self.go_to_page(page);
    }

    /// `lines` rows down with saturating arithmetic, clamped to the last row.
    pub fn scroll_down(&mut self, lines: usize)
        requires
            old(self).wf(),
        ensures
            final(self).wf(),
            *final(self) == spec_scroll_down(*old(self), lines as int),
            final(self).current_row as int <= spec_max_row(old(self).total_rows as int),
    {
        let max_row: usize = if self.total_rows == 0 {
            0
        } else {
            self.total_rows - 1
        };
        let room = max_row - self.current_row;
        self.current_row = if lines >= room {
            max_row
        } else {
            self.current_row + lines
        };
        self.current_page = page_of(self.current_row, self.rows_per_page);
    }

    /// `lines` rows up with saturating arithmetic, clamped to row 0.
    pub fn scroll_up(&mut self, lines: usize)
        requires
            old(self).wf(),
        ensures
            final(self).wf(),
            *final(self) == spec_scroll_up(*old(self), lines as int),
            final(self).current_row as int <= spec_max_row(old(self).total_rows as int),
    {
        self.current_row = if lines >= self.current_row {
            0
        } else {
            self.current_row - lines
        };
        self.current_page = page_of(self.current_row, self.rows_per_page);
    }

    /// The first row of the current page, `current_page * rows_per_page`.
    pub fn get_page_start(&self) -> (r: usize)
        requires
            self.wf(),
        ensures
            r == self.spec_page_start(),
            r <= self.current_row,
    {
        proof {
            if self.rows_per_page > 0 {
                lemma_fundamental_div_mod(self.current_row as int, self.rows_per_page as int);
            }
        }
        self.current_page * self.rows_per_page
    }

    /// One past the last row of the current page, capped at `total_rows`.
    pub fn get_page_end(&self) -> (r: usize)
        requires
            self.wf(),
        ensures
            r == self.spec_page_end(),
    {
        let start = self.get_page_start();
        let remaining = self.total_rows - start;
        if self.rows_per_page >= remaining {
            self.total_rows
        } else {
            start + self.rows_per_page
        }
    }

    /// The first visible row: `current_row`.
    pub fn get_viewport_start(&self) -> (r: usize)
        requires
            self.wf(),
        ensures
            r == self.spec_viewport_start(),
    {
        self.current_row
    }

    /// One past the last visible row, capped at `total_rows`.
    pub fn get_viewport_end(&self) -> (r: usize)
        requires
            self.wf(),
        ensures
            r == self.spec_viewport_end(),
    {
        let remaining = self.total_rows - self.current_row;
        if self.rows_per_page >= remaining {
            self.total_rows
        } else {
            self.current_row + self.rows_per_page
        }
    }

    /// Adopt new terminal dimensions: `rows_per_page` becomes the new height,
    /// the page fields are recomputed, and the cursor stays on its row.
    pub fn resize(&mut self, width: u16, height: u16)
        requires
            old(self).wf(),
        ensures
            final(self).wf(),
            *final(self) == spec_resize(*old(self), width, height),
            final(self).current_row == old(self).current_row,
            final(self).total_rows == old(self).total_rows,
            final(self).rows_per_page == height as usize,
            height == 0 ==> final(self).total_pages == 1,
    {
        self.terminal_width = width;
        self.terminal_height = height;
        self.rows_per_page = height as usize;
        self.total_pages = compute_total_pages(self.total_rows, self.rows_per_page);
        self.current_page = page_of(self.current_row, self.rows_per_page);
    }
}

// ---------------------------------------------------------------------------
// The pager: content, header and configuration around the navigation state,
// with the key-binding table and the per-event dispatch of the session loop.
// ---------------------------------------------------------------------------

/// One logical key press, as the binding table reads it.
#[derive(Clone, Copy, Debug, PartialEq, Eq, Structural)]
pub enum Key {
    Char(char),
    Esc,
    PageDown,
    PageUp,
    Down,
    Up,
    Home,
    End,
    Other,
}

/// A key press together with its control-modifier flag.
#[derive(Clone, Copy, Debug, PartialEq, Eq, Structural)]
pub struct KeyInput {
    pub code: Key,
    pub ctrl: bool,
}

/// One event of an interactive session.
#[derive(Clone, Copy, Debug, PartialEq, Eq, Structural)]
pub enum PagerEvent {
    Key(KeyInput),
    Resize(u16, u16),
    Other,
}

/// What the session loop must do after one event is handled.
#[derive(Clone, Copy, Debug, PartialEq, Eq, Structural)]
pub enum EventOutcome {
    Quit,
    Render,
    Idle,
}

/// The pager: the navigation state, the immutable content lines, an optional
/// header line shown above the viewport, and the scroll-step configuration.
pub struct Pager {
    pub state: PagerState,
    pub content: Vec<String>,
    pub header: Option<String>,
    pub config: PagerConfig,
}

/// Whether `key` quits the session.
pub open spec fn spec_quit_key(key: KeyInput) -> bool {
    key.code == Key::Char('q') || key.code == Key::Esc
}

/// The binding table: the navigation state after one key press. Keys with no
/// binding, the quit keys, and the reserved search keys leave the state
/// unchanged.
pub open spec fn spec_handle_key(s: PagerState, cfg: PagerConfig, key: KeyInput) -> PagerState {
    match key.code {
        Key::Char(c) => if c == ' ' {
            spec_scroll_down(s, s.rows_per_page as int)
        } else if c == 'b' {
            spec_scroll_up(s, s.rows_per_page as int)
        } else if c == 'j' {
            spec_scroll_down(s, cfg.scroll_single_line as int)
        } else if c == 'J' {
            spec_scroll_down(s, cfg.scroll_multi_line as int)
        } else if c == 'k' {
            spec_scroll_up(s, cfg.scroll_single_line as int)
        } else if c == 'K' {
            spec_scroll_up(s, cfg.scroll_multi_line as int)
        } else if c == 'd' {
            spec_scroll_down(s, s.rows_per_page as int / 2)
        } else if c == 'u' {
            spec_scroll_up(s, s.rows_per_page as int / 2)
        } else if c == 'g' {
            spec_go_to_first(s)
        } else if c == 'G' {
            spec_go_to_last(s)
        } else {
            s
        },
        Key::PageDown => spec_scroll_down(s, s.rows_per_page as int),
        Key::PageUp => spec_scroll_up(s, s.rows_per_page as int),
        Key::Down => spec_scroll_down(s, cfg.scroll_single_line as int),
        Key::Up => spec_scroll_up(s, cfg.scroll_single_line as int),
        Key::Home => spec_go_to_first(s),
        Key::End => spec_go_to_last(s),
        Key::Esc => s,
        Key::Other => s,
    }
}

/// The navigation state after one session event.
pub open spec fn spec_event_state(s: PagerState, cfg: PagerConfig, ev: PagerEvent) -> PagerState {
    match ev {
        PagerEvent::Key(k) => if spec_quit_key(k) {
            s
        } else {
            spec_handle_key(s, cfg, k)
        },
        PagerEvent::Resize(w, h) => spec_resize(s, w, h),
        PagerEvent::Other => s,
    }
}

/// What the session loop must do after one event: quit on a quit key, redraw
/// after any other key or a resize, and nothing otherwise.
pub open spec fn spec_event_outcome(ev: PagerEvent) -> EventOutcome {
    match ev {
        PagerEvent::Key(k) => if spec_quit_key(k) {
            EventOutcome::Quit
        } else {
            EventOutcome::Render
        },
        PagerEvent::Resize(_, _) => EventOutcome::Render,
        PagerEvent::Other => EventOutcome::Idle,
    }
}

impl Pager {
    /// Well-formedness: the state is well formed, its row count matches the
    /// content, and both scroll steps are positive.
    pub open spec fn wf(self) -> bool {
        &&& self.state.wf()
        &&& self.state.total_rows == self.content@.len()
        &&& self.config.scroll_single_line >= 1
        &&& self.config.scroll_multi_line >= 1
    }

    /// 1 when a header line is shown above the viewport, else 0.
    pub open spec fn spec_header_count(self) -> int {
        if self.header is Some {
            1
        } else {
            0
        }
    }

    /// The text of the header line; empty when there is none.
    pub open spec fn spec_header_text(self) -> Seq<char> {
        match self.header {
            Some(h) => h@,
            None => Seq::empty(),
        }
    }

    /// How many screen lines are left for content once the header has taken
    /// its line.
    pub open spec fn spec_content_budget(self) -> int {
        let th = self.state.terminal_height as int;
        if th >= self.spec_header_count() {
            th - self.spec_header_count()
        } else {
            0
        }
    }

    /// How many content lines one redraw shows: the viewport, cut off when
    /// the screen runs out below the header.
    pub open spec fn spec_visible_count(self) -> int {
        let vp = self.state.spec_viewport_end() - self.state.spec_viewport_start();
        if vp <= self.spec_content_budget() {
            vp
        } else {
            self.spec_content_budget()
        }
    }

    /// Build a pager over `total_rows` pre-rendered lines for a terminal of
    /// the given size.
    pub fn new(
        content: Vec<String>,
        header: Option<String>,
        total_rows: usize,
        config: PagerConfig,
        terminal_width: u16,
        terminal_height: u16,
    ) -> (p: Pager)
        requires
            total_rows == content@.len(),
            config.scroll_single_line >= 1,
            config.scroll_multi_line >= 1,
        ensures
            p.wf(),
            p.state == spec_new_state(total_rows, terminal_width, terminal_height),
            p.content@ == content@,
            p.header == header,
            p.config == config,
    {
        let state = PagerState::new(total_rows, terminal_width, terminal_height);
        Pager { state, content, header, config }
    }

    /// Apply one key press per the binding table; `true` means quit. Only the
    /// navigation state changes, and only as the table says.
    pub fn handle_key_event(&mut self, key: KeyInput) -> (quit: bool)
        requires
            old(self).wf(),
        ensures
            final(self).wf(),
            quit == spec_quit_key(key),
            final(self).state == spec_handle_key(old(self).state, old(self).config, key),
            final(self).content@ == old(self).content@,
            final(self).header == old(self).header,
            final(self).config == old(self).config,
    {
        if key.code == Key::Char('q') || key.code == Key::Esc {
            return true;
        }
        match key.code {
            Key::Char(c) => {
                if c == ' ' {
                    let lines = self.state.rows_per_page;
                    self.state.scroll_down(lines);
                } else if c == 'b' {
                    let lines = self.state.rows_per_page;
                    self.state.scroll_up(lines);
                } else if c == 'j' {
                    let lines = self.config.scroll_single_line;
                    self.state.scroll_down(lines);
                } else if c == 'J' {
                    let lines = self.config.scroll_multi_line;
                    self.state.scroll_down(lines);
                } else if c == 'k' {
                    let lines = self.config.scroll_single_line;
                    self.state.scroll_up(lines);
                } else if c == 'K' {
                    let lines = self.config.scroll_multi_line;
                    self.state.scroll_up(lines);
                } else if c == 'd' {
                    let lines = self.state.rows_per_page / 2;
                    self.state.scroll_down(lines);
                } else if c == 'u' {
                    let lines = self.state.rows_per_page / 2;
                    self.state.scroll_up(lines);
                } else if c == 'g' {
                    self.state.go_to_first();
                } else if c == 'G' {
                    self.state.go_to_last();
                }
            },
            Key::PageDown => {
                let lines = self.state.rows_per_page;
                self.state.scroll_down(lines);
            },
            Key::PageUp => {
                let lines = self.state.rows_per_page;
                self.state.scroll_up(lines);
            },
            Key::Down => {
                let lines = self.config.scroll_single_line;
                self.state.scroll_down(lines);
            },
            Key::Up => {
                let lines = self.config.scroll_single_line;
                self.state.scroll_up(lines);
            },
            Key::Home => {
                self.state.go_to_first();
            },
            Key::End => {
                self.state.go_to_last();
            },
            Key::Esc => {},
            Key::Other => {},
        }
        false
    }

    /// Handle one session event: dispatch a key press, adopt a resize, ignore
    /// anything else, and say whether the loop should quit, redraw, or idle.
    pub fn handle_event(&mut self, ev: PagerEvent) -> (out: EventOutcome)
        requires
            old(self).wf(),
        ensures
            final(self).wf(),
            out == spec_event_outcome(ev),
            final(self).state == spec_event_state(old(self).state, old(self).config, ev),
            final(self).content@ == old(self).content@,
            final(self).header == old(self).header,
            final(self).config == old(self).config,
    {
        match ev {
            PagerEvent::Key(k) => {
                if self.handle_key_event(k) {
                    EventOutcome::Quit
                } else {
                    EventOutcome::Render
                }
            },
            PagerEvent::Resize(w, h) => {
                self.state.resize(w, h);
                EventOutcome::Render
            },
            PagerEvent::Other => EventOutcome::Idle,
        }
    }

    /// The lines one redraw paints, top to bottom: the header line if there is
    /// one, then the visible slice of the content, cut off when the screen
    /// runs out.
    pub fn render_lines(&self) -> (out: Vec<String>)
        requires
            self.wf(),
        ensures
            out@.len() == self.spec_header_count() + self.spec_visible_count(),
            self.header is Some ==> out@.len() >= 1 && out@[0]@ == self.spec_header_text(),
            forall|k: int|
                self.spec_header_count() <= k < out@.len() ==> (#[trigger] out@[k])@
                    == self.content@[self.state.spec_viewport_start() + k
                    - self.spec_header_count()]@,
    {
        let mut out: Vec<String> = Vec::new();
        if let Some(h) = &self.header {
            out.push(h.clone());
        }
        let hc: usize = if self.header.is_some() {
            1
        } else {
            0
        };
        let start = self.state.get_viewport_start();
        let end = self.state.get_viewport_end();
        let th = self.state.terminal_height as usize;
        let budget: usize = if th >= hc {
            th - hc
        } else {
            0
        };
        let vp = end - start;
        let count = if vp <= budget {
            vp
        } else {
            budget
        };
        let mut i: usize = 0;
        while i < count
            invariant
                self.wf(),
                i <= count,
                hc == self.spec_header_count(),
                count == self.spec_visible_count(),
                start == self.state.spec_viewport_start(),
                start + count <= self.content@.len(),
                out@.len() == hc + i,
                self.header is Some ==> out@.len() >= 1 && out@[0]@ == self.spec_header_text(),
                forall|k: int|
                    hc <= k < out@.len() ==> (#[trigger] out@[k])@ == self.content@[start + k
                        - hc]@,
            decreases count - i,
        {
            let line = self.content[start + i].clone();
            out.push(line);
            i = i + 1;
        }
        out
    }
}

// ---------------------------------------------------------------------------
// Laws of the pager arithmetic.
// ---------------------------------------------------------------------------

/// For at least one row and a page of at least one line, the page count is
/// exactly the rounded-up quotient `ceil(total_rows / rows_per_page)`. (With
/// zero rows the count is pinned to 1 instead, so that case is left out.)
pub proof fn lemma_total_pages_is_ceil(total_rows: int, rows_per_page: int)
    requires
        1 <= total_rows,
        1 <= rows_per_page,
    ensures
        spec_total_pages(total_rows, rows_per_page) == (total_rows + rows_per_page - 1)
            / rows_per_page,
{
    lemma_div_plus_one(total_rows - 1, rows_per_page);
}

/// A zero-height terminal yields exactly one page, with no division by zero.
pub proof fn lemma_zero_height_single_page(total_rows: int)
    ensures
        spec_total_pages(total_rows, 0) == 1,
{
}

/// The viewport never shows more than one page of rows and never reaches past
/// the content.
pub proof fn lemma_viewport_bounds(s: PagerState)
    requires
        s.wf(),
    ensures
        s.spec_viewport_start() <= s.spec_viewport_end(),
        s.spec_viewport_end() - s.spec_viewport_start() <= s.rows_per_page,
        s.spec_viewport_end() <= s.total_rows,
{
}

/// Jumping to the first page twice lands exactly where jumping once does.
pub proof fn lemma_go_to_first_idempotent(s: PagerState)
    requires
        s.wf(),
    ensures
        spec_go_to_first(spec_go_to_first(s)) == spec_go_to_first(s),
{
    lemma_mul_basics(s.rows_per_page as int);
}

/// Jumping to the last page twice lands exactly where jumping once does.
pub proof fn lemma_go_to_last_idempotent(s: PagerState)
    requires
        s.wf(),
    ensures
        spec_go_to_last(spec_go_to_last(s)) == spec_go_to_last(s),
{
}

/// Every operation of the pager carries a well-formed state to a well-formed
/// state: the derived fields stay consistent and the cursor stays in bounds.
pub proof fn lemma_operations_preserve_wf(s: PagerState, page: int, lines: int, width: u16, height: u16)
    requires
        s.wf(),
        0 <= page,
        0 <= lines,
    ensures
        spec_go_to_page(s, page).wf(),
        spec_next_page(s).wf(),
        spec_prev_page(s).wf(),
        spec_go_to_first(s).wf(),
        spec_go_to_last(s).wf(),
        spec_next_row(s).wf(),
        spec_prev_row(s).wf(),
        spec_scroll_down(s, lines).wf(),
        spec_scroll_up(s, lines).wf(),
        spec_resize(s, width, height).wf(),
{
    lemma_goto_wf(s, page);
    lemma_goto_wf(s, 0);
    lemma_goto_wf(s, s.total_pages - 1);
    if s.current_page < s.total_pages - 1 {
        lemma_goto_wf(s, s.current_page + 1);
    }
    if s.current_page > 0 {
        lemma_goto_wf(s, s.current_page - 1);
    }
}

/// `go_to_page` lands on a well-formed state for any requested page.
proof fn lemma_goto_wf(s: PagerState, page: int)
    requires
        s.wf(),
        0 <= page,
    ensures
        spec_go_to_page(s, page).wf(),
{
    let rpp = s.rows_per_page as int;
    let mr = spec_max_row(s.total_rows as int);
    let last = s.total_pages - 1;
    let target = if page < last {
        page
    } else {
        last
    };
    if rpp > 0 {
        lemma_page_start_bounds(mr, rpp, target);
        lemma_mul_nonnegative(target, rpp);
    } else {
        lemma_mul_basics(target);
    }
}

/// A resize keeps the invariants, with the page size taken from the new
/// height, and every navigation operation afterwards keeps them again.
pub proof fn lemma_resize_then_navigate_preserves_wf(
    s: PagerState,
    width: u16,
    height: u16,
    page: int,
    lines: int,
)
    requires
        s.wf(),
        0 <= page,
        0 <= lines,
    ensures
        spec_resize(s, width, height).wf(),
        spec_resize(s, width, height).rows_per_page == height as usize,
        spec_go_to_page(spec_resize(s, width, height), page).wf(),
        spec_next_page(spec_resize(s, width, height)).wf(),
        spec_prev_page(spec_resize(s, width, height)).wf(),
        spec_go_to_first(spec_resize(s, width, height)).wf(),
        spec_go_to_last(spec_resize(s, width, height)).wf(),
        spec_next_row(spec_resize(s, width, height)).wf(),
        spec_prev_row(spec_resize(s, width, height)).wf(),
        spec_scroll_down(spec_resize(s, width, height), lines).wf(),
        spec_scroll_up(spec_resize(s, width, height), lines).wf(),
{
    lemma_operations_preserve_wf(s, page, lines, width, height);
    lemma_operations_preserve_wf(spec_resize(s, width, height), page, lines, width, height);
}

/// With no content every navigation operation is a no-op and the viewport is
/// empty.
pub proof fn lemma_empty_content_noop(s: PagerState, page: int, lines: int)
    requires
        s.wf(),
        s.total_rows == 0,
        0 <= page,
        0 <= lines,
    ensures
        spec_go_to_page(s, page) == s,
        spec_next_page(s) == s,
        spec_prev_page(s) == s,
        spec_go_to_first(s) == s,
        spec_go_to_last(s) == s,
        spec_next_row(s) == s,
        spec_prev_row(s) == s,
        spec_scroll_down(s, lines) == s,
        spec_scroll_up(s, lines) == s,
        s.spec_viewport_start() == 0,
        s.spec_viewport_end() == 0,
{
    lemma_mul_basics(s.rows_per_page as int);
}

} // verus!
