//! The visible window over the post buffer and its two transitions.
use vstd::prelude::*;

verus! {

/// The viewport: the selected post (`line`), the first visible post
/// (`upper_line`), and the terminal's size in rows and columns.
#[derive(Clone, Copy, Debug, PartialEq, Eq)]
pub struct Screen {
    pub line: i32,
    pub upper_line: i32,
    pub height: i32,
    pub width: i32,
}

impl Screen {
    /// The viewport invariant: the selection lies inside the visible window,
    /// and the window has at least one row and one column.
    pub open spec fn wf(self) -> bool {
        &&& 0 <= self.upper_line <= self.line
        &&& self.line < self.upper_line + self.height
        &&& self.height > 0
        &&& self.width > 0
    }

    /// The state after moving the selection one post down.
    pub open spec fn down_spec(self) -> Screen {
        let line = self.line + 1;
        Screen {
            line: line as i32,
            upper_line: if line + 2 >= self.height + self.upper_line {
                (self.upper_line + 1) as i32
            } else {
                self.upper_line
            },
            ..self
        }
    }

    /// The state after moving the selection one post up, never below zero.
    pub open spec fn up_spec(self) -> Screen {
        let line: int = if self.line - 1 < 0 { 0 } else { self.line - 1 };
        Screen {
            line: line as i32,
            upper_line: if line - 1 < self.upper_line {
                if self.upper_line - 1 < 0 { 0 } else { (self.upper_line - 1) as i32 }
            } else {
                self.upper_line
            },
            ..self
        }
    }

    /// A fresh viewport at the top of the stream, for a terminal of the
    /// given size.
    pub fn new(width: i32, height: i32) -> (r: Screen)
        requires
            width > 0,
            height > 0,
        ensures
            r == (Screen { line: 0, upper_line: 0, height, width }),
            r.wf(),
    {
        Screen { line: 0, upper_line: 0, height, width }
    }

    /// Moves the selection one post down; the window scrolls by one when
    /// fewer than two rows would remain below the selection.
    pub fn down(self) -> (r: Screen)
        requires
            self.wf(),
            self.line < i32::MAX,
        ensures
            r == self.down_spec(),
            r.wf(),
    {
        let mut next = self;
        next.line = self.line + 1;
        if next.line as i64 + 2 >= next.height as i64 + next.upper_line as i64 {
            next.upper_line = next.upper_line + 1;
        }
        next
    }

    /// Moves the selection one post up, stopping at the first post; the
    /// window scrolls back by one when the selection reaches its top row.
    pub fn up(self) -> (r: Screen)
        requires
            self.wf(),
        ensures
            r == self.up_spec(),
            r.wf(),
    {
        let mut next = self;
        next.line = if self.line - 1 < 0 { 0 } else { self.line - 1 };
        if (next.line as i64) - 1 < next.upper_line as i64 {
            next.upper_line = if next.upper_line - 1 < 0 { 0 } else { next.upper_line - 1 };
        }
        next
    }
}

/// Moving down keeps the viewport invariant.
pub proof fn lemma_down_wf(s: Screen)
    requires
        s.wf(),
        s.line < i32::MAX,
    ensures
        s.down_spec().wf(),
{
}

/// Moving up keeps the viewport invariant.
pub proof fn lemma_up_wf(s: Screen)
    requires
        s.wf(),
    ensures
        s.up_spec().wf(),
{
}

/// The state after a sequence of moves, `true` for down and `false` for up.
pub open spec fn after_moves(s: Screen, moves: Seq<bool>) -> Screen
    decreases moves.len(),
{
    if moves.len() == 0 {
        s
    } else {
        let prev = after_moves(s, moves.drop_last());
        if moves.last() {
            prev.down_spec()
        } else {
            prev.up_spec()
        }
    }
}

/// From a fresh viewport, every sequence of moves keeps the selection in
/// the visible window: `upper_line <= line < upper_line + height`. (The
/// selection moves by one per move, so a sequence shorter than `i32::MAX`
/// keeps `line` in range.)
pub proof fn lemma_moves_keep_invariant(width: i32, height: i32, moves: Seq<bool>)
    requires
        width > 0,
        height > 0,
        moves.len() < i32::MAX,
    ensures
        after_moves(Screen { line: 0, upper_line: 0, height, width }, moves).wf(),
        after_moves(Screen { line: 0, upper_line: 0, height, width }, moves).height == height,
        after_moves(Screen { line: 0, upper_line: 0, height, width }, moves).width == width,
        after_moves(Screen { line: 0, upper_line: 0, height, width }, moves).line <= moves.len(),
    decreases moves.len(),
{
    let s0 = Screen { line: 0, upper_line: 0, height, width };
    if moves.len() > 0 {
        lemma_moves_keep_invariant(width, height, moves.drop_last());
        let prev = after_moves(s0, moves.drop_last());
        if moves.last() {
            lemma_down_wf(prev);
        } else {
            lemma_up_wf(prev);
        }
    }
}

/// Moving up from the first post changes nothing.
pub proof fn lemma_up_at_top(s: Screen)
    requires
        s.wf(),
        s.line == 0,
    ensures
        s.up_spec() == s,
{
}

} // verus!
