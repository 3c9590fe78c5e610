//! Clockwise traversal of the border of a rectangle of cells.
//!
//! The walk starts at the origin facing right and moves one cell with every
//! step. At the end of an edge the cursor turns clockwise and takes its step
//! along the new edge, so on a rectangle with both sides of at least two one
//! lap visits each of the `2 * (width + height - 2)` border cells exactly
//! once. On a rectangle that is a single row, column or cell a turn that has
//! nowhere to go leaves the cursor where it is.
use vstd::prelude::*;
use vstd::arithmetic::div_mod::{lemma_add_mod_noop_right, lemma_mod_self_0, lemma_small_mod};

verus! {

/// The edge direction the cursor is currently travelling in.
#[derive(Clone, Copy, Debug, PartialEq, Eq, Structural)]
pub enum Direction {
    Right,
    Down,
    Left,
    Up,
}

/// Mathematical model of a cursor walking the border of a `width` x `height`
/// rectangle.
pub struct PerimeterCursor {
    pub x: nat,
    pub y: nat,
    pub width: nat,
    pub height: nat,
    pub facing: Direction,
}

impl PerimeterCursor {
    /// The cursor at the origin, about to walk the top edge.
    pub open spec fn start(width: nat, height: nat) -> Self {
        PerimeterCursor { x: 0, y: 0, width, height, facing: Direction::Right }
    }

    /// Both sides of the rectangle are at least two cells long.
    pub open spec fn proper(self) -> bool {
        self.width >= 2 && self.height >= 2
    }

    /// The cursor lies inside the rectangle, on the edge that its direction
    /// belongs to, and past the corner at which that edge begins.
    pub open spec fn wf(self) -> bool {
        &&& self.width >= 1
        &&& self.height >= 1
        &&& self.x < self.width
        &&& self.y < self.height
        &&& match self.facing {
            Direction::Right => self.y == 0,
            Direction::Down => self.x + 1 == self.width && (self.height >= 2 ==> self.y >= 1),
            Direction::Left => self.y + 1 == self.height && (self.width >= 2 ==> self.x + 2
                <= self.width),
            Direction::Up => self.x == 0 && (self.height >= 2 ==> self.y + 2 <= self.height),
        }
    }

    /// The cell is on the boundary of the rectangle.
    pub open spec fn on_border(self) -> bool {
        ||| self.x == 0
        ||| self.x + 1 == self.width
        ||| self.y == 0
        ||| self.y + 1 == self.height
    }

    /// One step of the walk: move one cell along the current edge, or, at
    /// its end, turn clockwise and move one cell along the next edge. A turn
    /// whose move would leave the rectangle only turns.
    pub open spec fn step(self) -> Self {
        match self.facing {
            Direction::Right => if self.x + 1 < self.width {
                PerimeterCursor { x: self.x + 1, ..self }
            } else if self.y + 1 < self.height {
                PerimeterCursor { y: self.y + 1, facing: Direction::Down, ..self }
            } else {
                PerimeterCursor { facing: Direction::Down, ..self }
            },
            Direction::Down => if self.y + 1 < self.height {
                PerimeterCursor { y: self.y + 1, ..self }
            } else if self.x != 0 {
                PerimeterCursor { x: (self.x - 1) as nat, facing: Direction::Left, ..self }
            } else {
                PerimeterCursor { facing: Direction::Left, ..self }
            },
            Direction::Left => if self.x != 0 {
                PerimeterCursor { x: (self.x - 1) as nat, ..self }
            } else if self.y != 0 {
                PerimeterCursor { y: (self.y - 1) as nat, facing: Direction::Up, ..self }
            } else {
                PerimeterCursor { facing: Direction::Up, ..self }
            },
            Direction::Up => if self.y != 0 {
                PerimeterCursor { y: (self.y - 1) as nat, ..self }
            } else if self.x + 1 < self.width {
                PerimeterCursor { x: self.x + 1, facing: Direction::Right, ..self }
            } else {
                PerimeterCursor { facing: Direction::Right, ..self }
            },
        }
    }

    /// The cursor after `n` steps.
    pub open spec fn after(self, n: nat) -> Self
        decreases n,
    {
        if n == 0 {
            self
        } else {
            self.after((n - 1) as nat).step()
        }
    }

    /// Number of steps in one full lap of a proper rectangle: the number of
    /// its border cells.
    pub open spec fn period(self) -> nat
        recommends
            self.proper(),
    {
        (2 * (self.width + self.height) - 4) as nat
    }

    /// How many steps into the lap of a proper rectangle the cursor is. The
    /// origin has phase zero whichever way the cursor faces there.
    pub open spec fn phase(self) -> nat
        recommends
            self.proper(),
    {
        match self.facing {
            Direction::Right => self.x,
            Direction::Down => (self.width - 1 + self.y) as nat,
            Direction::Left => (2 * self.width + self.height - 3 - self.x) as nat,
            Direction::Up => if self.y == 0 {
                0
            } else {
                (2 * self.width + 2 * self.height - 4 - self.y) as nat
            },
        }
    }

    /// The rectangle is a single row or a single column of at least two
    /// cells.
    pub open spec fn line(self) -> bool {
        (self.width == 1 && self.height >= 2) || (self.height == 1 && self.width >= 2)
    }

    /// Number of steps in which the walk along a line goes to its far end
    /// and comes back: twice its length, as the turn at either end takes a
    /// step that moves nowhere.
    pub open spec fn line_period(self) -> nat
        recommends
            self.line(),
    {
        if self.width == 1 {
            2 * self.height
        } else {
            2 * self.width
        }
    }

    /// How many steps into its way along a line and back the cursor is.
    pub open spec fn line_phase(self) -> nat
        recommends
            self.line(),
    {
        if self.width == 1 {
            match self.facing {
                Direction::Right => 0,
                Direction::Down => self.y,
                Direction::Left => self.height,
                Direction::Up => (2 * self.height - 1 - self.y) as nat,
            }
        } else {
            match self.facing {
                Direction::Right => self.x,
                Direction::Down => self.width,
                Direction::Left => (2 * self.width - 1 - self.x) as nat,
                Direction::Up => 0,
            }
        }
    }

    /// The cursor that is `k` steps into a lap from the origin, for `k`
    /// below the period: top row left to right, right column downwards,
    /// bottom row right to left, left column upwards.
    pub open spec fn at_phase(width: nat, height: nat, k: nat) -> Self
        recommends
            width >= 2,
            height >= 2,
            k < 2 * (width + height) - 4,
    {
        if k < width {
            PerimeterCursor { x: k, y: 0, width, height, facing: Direction::Right }
        } else if k < width + height - 1 {
            PerimeterCursor {
                x: (width - 1) as nat,
                y: (k - (width - 1)) as nat,
                width,
                height,
                facing: Direction::Down,
            }
        } else if k < 2 * width + height - 2 {
            PerimeterCursor {
                x: (2 * width + height - 3 - k) as nat,
                y: (height - 1) as nat,
                width,
                height,
                facing: Direction::Left,
            }
        } else {
            PerimeterCursor {
                x: 0,
                y: (2 * width + 2 * height - 4 - k) as nat,
                width,
                height,
                facing: Direction::Up,
            }
        }
    }
}

/// A well-formed cursor is always on the border of its rectangle.
pub proof fn lemma_wf_on_border(c: PerimeterCursor)
    requires
        c.wf(),
    ensures
        c.on_border(),
{
}

/// On every rectangle, a step keeps the cursor well formed and keeps the
/// rectangle.
pub proof fn lemma_step(c: PerimeterCursor)
    requires
        c.wf(),
    ensures
        c.step().wf(),
        c.step().width == c.width,
        c.step().height == c.height,
{
}

/// On a proper rectangle every step, a turn included, moves the cursor by
/// exactly one cell in exactly one coordinate.
pub proof fn lemma_step_moves_one_cell(c: PerimeterCursor)
    requires
        c.wf(),
        c.proper(),
    ensures
        ({
            let s = c.step();
            ||| s.x == c.x && (s.y == c.y + 1 || s.y + 1 == c.y)
            ||| s.y == c.y && (s.x == c.x + 1 || s.x + 1 == c.x)
        }),
{
}

/// On a proper rectangle a step advances the phase by one around the lap.
pub proof fn lemma_step_phase(c: PerimeterCursor)
    requires
        c.wf(),
        c.proper(),
    ensures
        c.phase() < c.period(),
        c.step().phase() == (c.phase() + 1) % c.period(),
{
    if c.phase() + 1 < c.period() {
        lemma_small_mod(c.phase() + 1, c.period());
    } else {
        lemma_mod_self_0(c.period() as int);
    }
}

/// On a proper rectangle the phase determines the cell, and the direction
/// too everywhere but at the origin, where the cursor faces right when the
/// walk begins and up when a lap ends.
pub proof fn lemma_phase_determines(c: PerimeterCursor)
    requires
        c.wf(),
        c.proper(),
    ensures
        c.phase() < c.period(),
        c.x == PerimeterCursor::at_phase(c.width, c.height, c.phase()).x,
        c.y == PerimeterCursor::at_phase(c.width, c.height, c.phase()).y,
        c.phase() != 0 ==> c == PerimeterCursor::at_phase(c.width, c.height, c.phase()),
{
}

/// Two cursors on one proper rectangle that are equally far into the lap
/// take the same step.
pub proof fn lemma_same_phase_same_step(a: PerimeterCursor, b: PerimeterCursor)
    requires
        a.wf(),
        b.wf(),
        a.proper(),
        a.width == b.width,
        a.height == b.height,
        a.phase() == b.phase(),
    ensures
        a.step() == b.step(),
{
}

/// Every phase below the period names a well-formed cursor with that phase.
pub proof fn lemma_at_phase(width: nat, height: nat, k: nat)
    requires
        width >= 2,
        height >= 2,
        k < 2 * (width + height) - 4,
    ensures
        PerimeterCursor::at_phase(width, height, k).wf(),
        PerimeterCursor::at_phase(width, height, k).phase() == k,
        PerimeterCursor::at_phase(width, height, k).width == width,
        PerimeterCursor::at_phase(width, height, k).height == height,
{
}

/// Different phases of a lap are different cells.
pub proof fn lemma_phases_are_distinct_cells(width: nat, height: nat, i: nat, j: nat)
    requires
        width >= 2,
        height >= 2,
        i < j < 2 * (width + height) - 4,
    ensures
        PerimeterCursor::at_phase(width, height, i).x != PerimeterCursor::at_phase(
            width,
            height,
            j,
        ).x || PerimeterCursor::at_phase(width, height, i).y != PerimeterCursor::at_phase(
            width,
            height,
            j,
        ).y,
{
}

/// On every rectangle, after any number of steps the cursor is still well
/// formed, hence inside the rectangle and on its border.
pub proof fn lemma_walk_stays_on_border(c: PerimeterCursor, n: nat)
    requires
        c.wf(),
    ensures
        c.after(n).wf(),
        c.after(n).on_border(),
        c.after(n).width == c.width,
        c.after(n).height == c.height,
    decreases n,
{
    if n > 0 {
        lemma_walk_stays_on_border(c, (n - 1) as nat);
        lemma_step(c.after((n - 1) as nat));
    }
}

/// On a proper rectangle, after `n` steps the phase has advanced by `n`
/// modulo the period, and the cell is the one that the closed form gives
/// for that phase.
pub proof fn lemma_after(c: PerimeterCursor, n: nat)
    requires
        c.wf(),
        c.proper(),
    ensures
        c.after(n).wf(),
        c.after(n).width == c.width,
        c.after(n).height == c.height,
        c.after(n).phase() == (c.phase() + n) % c.period(),
        c.after(n).x == PerimeterCursor::at_phase(
            c.width,
            c.height,
            (c.phase() + n) % c.period(),
        ).x,
        c.after(n).y == PerimeterCursor::at_phase(
            c.width,
            c.height,
            (c.phase() + n) % c.period(),
        ).y,
    decreases n,
{
    lemma_walk_stays_on_border(c, n);
    lemma_step_phase(c);
    if n == 0 {
        lemma_small_mod(c.phase(), c.period());
    } else {
        let m = (n - 1) as nat;
        lemma_after(c, m);
        lemma_step_phase(c.after(m));
        lemma_add_mod_noop_right(1, (c.phase() + m) as int, c.period() as int);
    }
    lemma_phase_determines(c.after(n));
}

/// The walk is periodic: on a proper rectangle a full lap of
/// `2 * (width + height - 2)` steps brings the cursor back to the cell it
/// was on, so the emitted cells repeat identically from then on. Once the
/// first step is taken the whole state repeats, direction included.
pub proof fn lemma_lap_returns(c: PerimeterCursor, n: nat)
    requires
        c.wf(),
        c.proper(),
    ensures
        c.period() == 2 * (c.width + c.height - 2),
        c.after(c.period()).x == c.x && c.after(c.period()).y == c.y,
        c.after(n + c.period()).x == c.after(n).x,
        c.after(n + c.period()).y == c.after(n).y,
        c.after(n + c.period()).phase() == c.after(n).phase(),
        n >= 1 ==> c.after(n + c.period()) == c.after(n),
{
    let p = c.period();
    lemma_mod_self_0(p as int);
    lemma_after(c, 0);
    lemma_after(c, p);
    lemma_add_mod_noop_right(c.phase() as int, p as int, p as int);
    lemma_after(c, n);
    lemma_after(c, n + p);
    lemma_add_mod_noop_right((c.phase() + n) as int, p as int, p as int);
    if n >= 1 {
        let m = (n - 1) as nat;
        lemma_after(c, m);
        lemma_after(c, m + p);
        lemma_add_mod_noop_right((c.phase() + m) as int, p as int, p as int);
        lemma_same_phase_same_step(c.after(m + p), c.after(m));
        assert(c.after(n + p) == c.after(m + p).step());
        assert(c.after(n) == c.after(m).step());
    }
}

/// On every rectangle the walk from the origin first runs along the top
/// row: the `n`-th cell, for `n` below the width, is `(n, 0)`.
pub proof fn lemma_top_edge(width: nat, height: nat, n: nat)
    requires
        width >= 1,
        height >= 1,
        n < width,
    ensures
        PerimeterCursor::start(width, height).after(n) == (PerimeterCursor {
            x: n,
            ..PerimeterCursor::start(width, height)
        }),
    decreases n,
{
    if n > 0 {
        lemma_top_edge(width, height, (n - 1) as nat);
    }
}

/// Closed form of the walk from the origin on a proper rectangle: the
/// `n`-th emitted cell is the one `n % period` steps into a clockwise lap.
pub proof fn lemma_walk_from_start(width: nat, height: nat, n: nat)
    requires
        width >= 2,
        height >= 2,
    ensures
        PerimeterCursor::start(width, height).wf(),
        PerimeterCursor::start(width, height).after(n).x == PerimeterCursor::at_phase(
            width,
            height,
            n % ((2 * (width + height) - 4) as nat),
        ).x,
        PerimeterCursor::start(width, height).after(n).y == PerimeterCursor::at_phase(
            width,
            height,
            n % ((2 * (width + height) - 4) as nat),
        ).y,
{
    lemma_after(PerimeterCursor::start(width, height), n);
}

/// Within one lap from the origin no cell comes twice: the cells of the
/// first `2 * (width + height - 2)` steps are pairwise distinct.
pub proof fn lemma_lap_cells_distinct(width: nat, height: nat, i: nat, j: nat)
    requires
        width >= 2,
        height >= 2,
        i < j < 2 * (width + height - 2),
    ensures
        PerimeterCursor::start(width, height).after(i).x != PerimeterCursor::start(
            width,
            height,
        ).after(j).x || PerimeterCursor::start(width, height).after(i).y != PerimeterCursor::start(
            width,
            height,
        ).after(j).y,
{
    let p = (2 * (width + height) - 4) as nat;
    lemma_walk_from_start(width, height, i);
    lemma_walk_from_start(width, height, j);
    lemma_small_mod(i, p);
    lemma_small_mod(j, p);
    lemma_phases_are_distinct_cells(width, height, i, j);
}

/// A lap leaves out no cell of the border: every cell of a proper rectangle
/// that lies on its boundary is the cell of some phase of the lap.
pub proof fn lemma_lap_covers_border(width: nat, height: nat, x: nat, y: nat)
    requires
        width >= 2,
        height >= 2,
        x < width,
        y < height,
        x == 0 || x + 1 == width || y == 0 || y + 1 == height,
    ensures
        exists|k: nat|
            k < 2 * (width + height) - 4 && (#[trigger] PerimeterCursor::at_phase(
                width,
                height,
                k,
            )).x == x && PerimeterCursor::at_phase(width, height, k).y == y,
{
    let k: nat = if y == 0 {
        x
    } else if x + 1 == width {
        (width - 1 + y) as nat
    } else if y + 1 == height {
        (2 * width + height - 3 - x) as nat
    } else {
        (2 * width + 2 * height - 4 - y) as nat
    };
    assert(PerimeterCursor::at_phase(width, height, k).x == x);
    assert(PerimeterCursor::at_phase(width, height, k).y == y);
}

/// On a line a step advances the phase by one around the way there and
/// back.
pub proof fn lemma_line_step_phase(c: PerimeterCursor)
    requires
        c.wf(),
        c.line(),
    ensures
        c.line_phase() < c.line_period(),
        c.step().line_phase() == (c.line_phase() + 1) % c.line_period(),
{
    if c.line_phase() + 1 < c.line_period() {
        lemma_small_mod(c.line_phase() + 1, c.line_period());
    } else {
        lemma_mod_self_0(c.line_period() as int);
    }
}

/// Two cursors on one line that are equally far into the way there and back
/// are on the same cell and take the same step.
pub proof fn lemma_line_same_phase(a: PerimeterCursor, b: PerimeterCursor)
    requires
        a.wf(),
        b.wf(),
        a.line(),
        a.width == b.width,
        a.height == b.height,
        a.line_phase() == b.line_phase(),
    ensures
        a.x == b.x,
        a.y == b.y,
        a.step() == b.step(),
{
}

/// On a line, after `n` steps the phase has advanced by `n` modulo the
/// period.
pub proof fn lemma_line_after(c: PerimeterCursor, n: nat)
    requires
        c.wf(),
        c.line(),
    ensures
        c.after(n).wf(),
        c.after(n).width == c.width,
        c.after(n).height == c.height,
        c.after(n).line_phase() == (c.line_phase() + n) % c.line_period(),
    decreases n,
{
    lemma_walk_stays_on_border(c, n);
    lemma_line_step_phase(c);
    if n == 0 {
        lemma_small_mod(c.line_phase(), c.line_period());
    } else {
        let m = (n - 1) as nat;
        lemma_line_after(c, m);
        lemma_line_step_phase(c.after(m));
        lemma_add_mod_noop_right(1, (c.line_phase() + m) as int, c.line_period() as int);
    }
}

/// The walk along a single row or column is periodic too: after twice the
/// length of the line the cursor is back on the cell it was on, and the
/// emitted cells repeat identically from then on.
pub proof fn lemma_line_lap_returns(c: PerimeterCursor, n: nat)
    requires
        c.wf(),
        c.line(),
    ensures
        c.after(c.line_period()).x == c.x && c.after(c.line_period()).y == c.y,
        c.after(n + c.line_period()).x == c.after(n).x,
        c.after(n + c.line_period()).y == c.after(n).y,
        n >= 1 ==> c.after(n + c.line_period()) == c.after(n),
{
    let p = c.line_period();
    lemma_mod_self_0(p as int);
    lemma_line_after(c, 0);
    lemma_line_after(c, p);
    lemma_add_mod_noop_right(c.line_phase() as int, p as int, p as int);
    lemma_line_same_phase(c.after(p), c);
    lemma_line_after(c, n);
    lemma_line_after(c, n + p);
    lemma_add_mod_noop_right((c.line_phase() + n) as int, p as int, p as int);
    lemma_line_same_phase(c.after(n + p), c.after(n));
    if n >= 1 {
        let m = (n - 1) as nat;
        lemma_line_after(c, m);
        lemma_line_after(c, m + p);
        lemma_add_mod_noop_right((c.line_phase() + m) as int, p as int, p as int);
        lemma_line_same_phase(c.after(m + p), c.after(m));
        assert(c.after(n + p) == c.after(m + p).step());
        assert(c.after(n) == c.after(m).step());
    }
}

/// On a rectangle of a single cell the cursor never leaves the origin.
pub proof fn lemma_single_cell(c: PerimeterCursor, n: nat)
    requires
        c.wf(),
        c.width == 1,
        c.height == 1,
    ensures
        c.after(n).x == 0,
        c.after(n).y == 0,
{
    lemma_walk_stays_on_border(c, n);
}

/// Walks the border of a rectangle clockwise from the origin, forever.
#[derive(Debug)]
pub struct PositionGenerator {
    width: u16,
    height: u16,
    x: u16,
    y: u16,
    direction: Direction,
}

impl View for PositionGenerator {
    type V = PerimeterCursor;

    closed spec fn view(&self) -> PerimeterCursor {
        PerimeterCursor {
            x: self.x as nat,
            y: self.y as nat,
            width: self.width as nat,
            height: self.height as nat,
            facing: self.direction,
        }
    }
}

impl PositionGenerator {
    /// A generator for a `width` x `height` rectangle, at the origin.
    pub fn new(width: u16, height: u16) -> (generator: Self)
        requires
            width >= 1,
            height >= 1,
        ensures
            generator@ == PerimeterCursor::start(width as nat, height as nat),
            generator@.wf(),
    {
        PositionGenerator { width, height, x: 0, y: 0, direction: Direction::Right }
    }

    /// Emits the current cell, then takes one step of the walk.
    pub fn next(&mut self) -> (cell: Option<(u16, u16)>)
        requires
            old(self)@.wf(),
        ensures
            cell matches Some(c) && c.0 == old(self)@.x && c.1 == old(self)@.y,
            old(self)@.on_border(),
            final(self)@ == old(self)@.step(),
            final(self)@.wf(),
    {
        let cell = (self.x, self.y);
        match self.direction {
            Direction::Right => {
                if self.x + 1 < self.width {
                    self.x += 1;
                } else {
                    self.direction = Direction::Down;
                    if self.y + 1 < self.height {
                        self.y += 1;
                    }
                }
            },
            Direction::Down => {
                if self.y + 1 < self.height {
                    self.y += 1;
                } else {
                    self.direction = Direction::Left;
                    if self.x != 0 {
                        self.x -= 1;
                    }
                }
            },
            Direction::Left => {
                if self.x != 0 {
                    self.x -= 1;
                } else {
                    self.direction = Direction::Up;
                    if self.y != 0 {
                        self.y -= 1;
                    }
                }
            },
            Direction::Up => {
                if self.y != 0 {
                    self.y -= 1;
                } else {
                    self.direction = Direction::Right;
                    if self.x + 1 < self.width {
                        self.x += 1;
                    }
                }
            },
        }
        Some(cell)
    }

    /// Width of the rectangle being walked.
    pub fn width(&self) -> (w: u16)
        ensures
            w == self@.width,
    {
        self.width
    }

    /// Height of the rectangle being walked.
    pub fn height(&self) -> (h: u16)
        ensures
            h == self@.height,
    {
        self.height
    }

    /// The cell that the following call of `next` will emit.
    pub fn position(&self) -> (cell: (u16, u16))
        ensures
            cell.0 == self@.x,
            cell.1 == self@.y,
    {
        (self.x, self.y)
    }

    /// The direction the cursor is facing.
    pub fn direction(&self) -> (d: Direction)
        ensures
            d == self@.facing,
    {
        self.direction
    }
}

} // verus!
