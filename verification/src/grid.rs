//! Pixel positions on the display, the snake's movement vector and the
//! toroidal wraparound of a position that leaves the display.

use crate::input::Tri;
use vstd::prelude::*;

verus! {

/// Width of the display in pixels.
pub const DISPLAY_WIDTH: i32 = 240;

/// Height of the display in pixels.
pub const DISPLAY_HEIGHT: i32 = 160;

/// Edge of one snake segment in pixels, which is also the grid pitch.
pub const SEGMENT_SIZE: i32 = 16;

/// The top-left corner of a sprite, in pixels.
#[derive(Clone, Copy, Debug, PartialEq, Eq, Structural)]
pub struct Position {
    pub x: i32,
    pub y: i32,
}

/// The displacement of the head in one tick, `[dx, dy]`.
#[derive(Clone, Copy, Debug, PartialEq, Eq, Structural)]
pub struct Movement {
    pub dx: i32,
    pub dy: i32,
}

/// A coordinate brought back onto an axis of length `extent`: below zero it
/// becomes the last cell, past the last cell it becomes zero, and in between
/// it stays what it is.
pub open spec fn wrap_coord(v: int, extent: int) -> int {
    if v < 0 {
        extent - SEGMENT_SIZE
    } else if v > extent - SEGMENT_SIZE {
        0
    } else {
        v
    }
}

/// The position reached from `p` by `m`, wrapped on both axes.
pub open spec fn advanced(p: Position, m: Movement) -> Position {
    Position {
        x: wrap_coord(p.x + m.dx, DISPLAY_WIDTH as int) as i32,
        y: wrap_coord(p.y + m.dy, DISPLAY_HEIGHT as int) as i32,
    }
}

/// Whether a sprite at `p` lies wholly on the display.
pub open spec fn on_display(p: Position) -> bool {
    &&& 0 <= p.x <= DISPLAY_WIDTH - SEGMENT_SIZE
    &&& 0 <= p.y <= DISPLAY_HEIGHT - SEGMENT_SIZE
}

/// `to` is one wrapped step along the x axis away from `from`.
pub open spec fn step_horizontal(from: Position, to: Position) -> bool {
    &&& to.y == from.y
    &&& (to.x == wrap_coord(from.x + SEGMENT_SIZE, DISPLAY_WIDTH as int)
        || to.x == wrap_coord(from.x - SEGMENT_SIZE, DISPLAY_WIDTH as int))
}

/// `to` is one wrapped step along the y axis away from `from`.
pub open spec fn step_vertical(from: Position, to: Position) -> bool {
    &&& to.x == from.x
    &&& (to.y == wrap_coord(from.y + SEGMENT_SIZE, DISPLAY_HEIGHT as int)
        || to.y == wrap_coord(from.y - SEGMENT_SIZE, DISPLAY_HEIGHT as int))
}

/// Whether two positions lie further apart than one grid pitch along an
/// axis, as the two ends of a step across an edge of the display do.
pub open spec fn across_edge(a: Position, b: Position) -> bool {
    ||| a.x - b.x > SEGMENT_SIZE
    ||| b.x - a.x > SEGMENT_SIZE
    ||| a.y - b.y > SEGMENT_SIZE
    ||| b.y - a.y > SEGMENT_SIZE
}

/// The two positions differ by exactly one grid pitch in x and not in y.
pub open spec fn pitch_apart_in_x(a: Position, b: Position) -> bool {
    &&& a.y == b.y
    &&& (b.x - a.x == SEGMENT_SIZE || a.x - b.x == SEGMENT_SIZE)
}

/// The two positions differ by exactly one grid pitch in y and not in x.
pub open spec fn pitch_apart_in_y(a: Position, b: Position) -> bool {
    &&& a.x == b.x
    &&& (b.y - a.y == SEGMENT_SIZE || a.y - b.y == SEGMENT_SIZE)
}

impl Movement {
    /// One grid pitch along exactly one axis.
    pub open spec fn is_step(self) -> bool {
        ||| self.dy == 0 && (self.dx == SEGMENT_SIZE || self.dx == -SEGMENT_SIZE)
        ||| self.dx == 0 && (self.dy == SEGMENT_SIZE || self.dy == -SEGMENT_SIZE)
    }

    /// Whether the movement runs along the x axis.
    pub open spec fn is_horizontal(self) -> bool {
        self.dx != 0
    }

    /// The movement after a quarter turn: the axes change places and the new
    /// component takes the sign of the input.
    pub open spec fn turned(self, turn: Tri) -> Movement {
        Movement {
            dx: ((if self.dy < 0 { -self.dy } else { self.dy as int }) * turn.sign()) as i32,
            dy: ((if self.dx < 0 { -self.dx } else { self.dx as int }) * turn.sign()) as i32,
        }
    }

    /// Turns the movement by a quarter, towards the side the input names.
    pub fn turn(self, turn: Tri) -> (r: Movement)
        requires
            self.is_step(),
        ensures
            r == self.turned(turn),
            turn != Tri::Zero ==> r.is_step() && r.is_horizontal() != self.is_horizontal(),
    {
        let sign: i32 = turn.value();
        let across: i32 = if self.dy < 0 { -self.dy } else { self.dy };
        let along: i32 = if self.dx < 0 { -self.dx } else { self.dx };
        Movement { dx: across * sign, dy: along * sign }
    }
}

/// Brings one coordinate back onto a display axis of length `extent`.
fn wrap(v: i64, extent: i32) -> (r: i32)
    requires
        extent >= SEGMENT_SIZE,
    ensures
        r == wrap_coord(v as int, extent as int),
        0 <= r <= extent - SEGMENT_SIZE,
{
    let last: i32 = extent - SEGMENT_SIZE;
    if v < 0 {
        last
    } else if v > last as i64 {
        0
    } else {
        v as i32
    }
}

/// Moves `p` by `m` and wraps the result around the display: a coordinate
/// that went below zero becomes the last cell of its axis, one that went past
/// the last cell becomes zero.
pub fn advance(p: Position, m: Movement) -> (q: Position)
    ensures
        q == advanced(p, m),
        on_display(q),
{
    let x: i32 = wrap(p.x as i64 + m.dx as i64, DISPLAY_WIDTH);
    let y: i32 = wrap(p.y as i64 + m.dy as i64, DISPLAY_HEIGHT);
    Position { x, y }
}

/// A wrapped coordinate lies on its axis, whatever came in.
pub proof fn lemma_wrap_coord_in_range(v: int, extent: int)
    requires
        extent >= SEGMENT_SIZE,
    ensures
        0 <= wrap_coord(v, extent) <= extent - SEGMENT_SIZE,
{
}

/// Wherever the head stands and whatever the movement, the position after
/// the move lies on the display on both axes.
pub proof fn lemma_advanced_on_display(p: Position, m: Movement)
    ensures
        on_display(advanced(p, m)),
{
    lemma_wrap_coord_in_range(p.x + m.dx, DISPLAY_WIDTH as int);
    lemma_wrap_coord_in_range(p.y + m.dy, DISPLAY_HEIGHT as int);
}

/// From a position on the display, a step of the snake is a wrapped step
/// along the axis of the movement.
pub proof fn lemma_advanced_is_step(p: Position, m: Movement)
    requires
        on_display(p),
        m.is_step(),
    ensures
        m.is_horizontal() ==> step_horizontal(p, advanced(p, m)),
        !m.is_horizontal() ==> step_vertical(p, advanced(p, m)),
{
}

/// A step along one axis is never also a step along the other: on the
/// display a wrapped step always changes the coordinate it moves.
pub proof fn lemma_steps_exclude(from: Position, to: Position)
    requires
        on_display(from),
    ensures
        !(step_horizontal(from, to) && step_vertical(from, to)),
        step_horizontal(from, to) ==> to.x != from.x,
        step_vertical(from, to) ==> to.y != from.y,
{
}

/// A wrapped step that does not lead across an edge of the display is a
/// plain difference of one grid pitch; one that does, is not.
pub proof fn lemma_step_inside_is_one_pitch(from: Position, to: Position)
    requires
        on_display(from),
    ensures
        step_horizontal(from, to) ==> (pitch_apart_in_x(from, to) <==> !across_edge(from, to)),
        step_vertical(from, to) ==> (pitch_apart_in_y(from, to) <==> !across_edge(from, to)),
{
}

} // verus!
