//! The snake as contracts speak of it: what a tick makes of it, stated
//! entry by entry, and the laws that hold of every tick.

use crate::grid::{
    across_edge, advanced, lemma_advanced_is_step, lemma_advanced_on_display, lemma_step_inside_is_one_pitch,
    lemma_steps_exclude, on_display, pitch_apart_in_x, pitch_apart_in_y, step_horizontal, step_vertical,
    Movement, Position, DISPLAY_HEIGHT, SEGMENT_SIZE,
};
use crate::input::Tri;
use crate::snake::{BODY_CAPACITY, START_LENGTH, START_X, START_Y};
use crate::sprite::{BodySprites, Sprite, SpriteKind};
use vstd::prelude::*;

verus! {

/// The snake as contracts speak of it.
///
/// `body` and `body_type` always have `BODY_CAPACITY` entries; the segments
/// in use are `body[0]`, the one right behind the head, up to
/// `body[length - 1]`, the tail. `body_type[i]` is the shape that the segment
/// arriving at index `i` in the next tick takes.
pub struct SnakeModel {
    pub head: Sprite,
    pub body: Seq<Sprite>,
    pub body_type: Seq<BodySprites>,
    pub length: int,
    pub movement: Movement,
    pub horizontal: bool,
}

impl SnakeModel {
    /// The stores have their fixed size, the length fits, and the movement is
    /// one step along the axis that `horizontal` names.
    pub open spec fn sound(self) -> bool {
        &&& self.body.len() == BODY_CAPACITY
        &&& self.body_type.len() == BODY_CAPACITY
        &&& 0 <= self.length <= BODY_CAPACITY
        &&& self.movement.is_step()
        &&& self.horizontal == self.movement.is_horizontal()
    }

    /// Where the neighbour ahead of segment `i` stands: the head for the
    /// first segment, the segment before it for every other.
    pub open spec fn ahead_pos(self, i: int) -> Position {
        if i == 0 {
            self.head.pos
        } else {
            self.body[i - 1].pos
        }
    }

    /// Segment `i` joins its two neighbours the way its image shows: a
    /// straight piece lies between two steps along its own axis, a turn
    /// between a step along one axis and a step along the other.
    pub open spec fn fits(self, i: int) -> bool {
        let behind = self.body[i + 1].pos;
        let at = self.body[i].pos;
        let ahead = self.ahead_pos(i);
        match self.body[i].kind {
            SpriteKind::SnakeBodyStraightVertical => step_vertical(behind, at) && step_vertical(at, ahead),
            SpriteKind::SnakeBodyStraightHorizontal => step_horizontal(behind, at) && step_horizontal(at, ahead),
            SpriteKind::SnakeBodyTurn => {
                ||| step_horizontal(behind, at) && step_vertical(at, ahead)
                ||| step_vertical(behind, at) && step_horizontal(at, ahead)
            },
            _ => false,
        }
    }

    /// A sound snake that lies on the display, whose head shows the axis it
    /// moves along and stands one step ahead of the first segment, and whose
    /// segments between head and tail all fit their neighbours.
    pub open spec fn wf(self) -> bool {
        &&& self.sound()
        &&& on_display(self.head.pos)
        &&& self.head.kind == SpriteKind::head(self.horizontal)
        &&& forall|i: int| 0 <= i < self.length ==> on_display(#[trigger] self.body[i].pos)
        &&& self.length >= 1 ==> self.head.pos == advanced(self.body[0].pos, self.movement)
        &&& forall|i: int| 0 <= i < self.length - 1 ==> #[trigger] self.fits(i)
        &&& forall|i: int|
            0 <= i < self.length - 1 ==> (#[trigger] self.body[i]).kind == self.body_type[i + 1].image()
    }

    /// Whether a snake of `length` segments that hangs straight down from
    /// a head at `head` lies on the display without wrapping.
    pub open spec fn fits_upright(head: Position, length: int) -> bool {
        &&& on_display(head)
        &&& 0 <= length <= BODY_CAPACITY
        &&& head.y + SEGMENT_SIZE * length <= DISPLAY_HEIGHT - SEGMENT_SIZE
    }

    /// Entry `i` of the body store of a snake that hangs straight down from
    /// its head: segment `i` stands `i + 1` steps below the head; a tail
    /// behind at least one other segment shows the vertical end cap; the
    /// entries past the length are fresh.
    pub open spec fn upright_segment(head: Position, length: int, i: int) -> Sprite {
        if i < length {
            Sprite {
                kind: if i >= 1 && i == length - 1 {
                    SpriteKind::SnakeBodyEndVertical
                } else {
                    SpriteKind::SnakeBodyStraightVertical
                },
                pos: Position { x: head.x, y: (head.y + SEGMENT_SIZE * (i + 1)) as i32 },
                hflip: false,
                vflip: false,
            }
        } else {
            Sprite::fresh(SpriteKind::SnakeBodyStraightVertical)
        }
    }

    /// A snake that moves up, with its body in a straight line below the
    /// head and nothing mirrored.
    pub open spec fn upright(head: Position, length: int) -> SnakeModel {
        SnakeModel {
            head: Sprite { kind: SpriteKind::SnakeHeadVertical, pos: head, hflip: false, vflip: false },
            body: Seq::new(BODY_CAPACITY as nat, |i: int| Self::upright_segment(head, length, i)),
            body_type: Seq::new(BODY_CAPACITY as nat, |i: int| BodySprites::StraightVertical),
            length,
            movement: Movement { dx: 0, dy: (-SEGMENT_SIZE) as i32 },
            horizontal: false,
        }
    }

    /// The snake a game begins with.
    pub open spec fn start() -> SnakeModel {
        Self::upright(Position { x: START_X, y: START_Y }, START_LENGTH as int)
    }

    /// Whether the head or a segment in use stands exactly at `cell`.
    pub open spec fn occupies(self, cell: Position) -> bool {
        ||| self.head.pos == cell
        ||| exists|i: int| 0 <= i < self.length && (#[trigger] self.body[i]).pos == cell
    }

    /// The one reading that counts in a tick: that of the axis the snake
    /// does not move along.
    pub open spec fn reading(self, x_tri: Tri, y_tri: Tri) -> Tri {
        if self.horizontal {
            y_tri
        } else {
            x_tri
        }
    }

    /// The snake after the input of a tick has been taken in, before
    /// anything moves. At rest the segment to come is marked straight along
    /// the current axis. Otherwise it is marked a turn, the axis changes,
    /// the movement turns by a quarter, and the head takes the image of the
    /// new axis, mirrored along it by the sign of the input and flipped
    /// across it.
    pub open spec fn steered(self, x_tri: Tri, y_tri: Tri) -> SnakeModel {
        let turn = self.reading(x_tri, y_tri);
        if turn == Tri::Zero {
            SnakeModel {
                body_type: self.body_type.update(0, BodySprites::straight(self.horizontal)),
                ..self
            }
        } else {
            SnakeModel {
                head: if self.horizontal {
                    Sprite {
                        kind: SpriteKind::SnakeHeadVertical,
                        pos: self.head.pos,
                        hflip: !self.head.hflip,
                        vflip: turn == Tri::Positive,
                    }
                } else {
                    Sprite {
                        kind: SpriteKind::SnakeHeadHorizontal,
                        pos: self.head.pos,
                        hflip: turn == Tri::Positive,
                        vflip: !self.head.vflip,
                    }
                },
                body_type: self.body_type.update(0, BodySprites::Turn),
                horizontal: !self.horizontal,
                movement: self.movement.turned(turn),
                ..self
            }
        }
    }

    /// The segment right behind the head after a tick: it stands where the
    /// head stood, shows the shape marked for it, and takes the head's
    /// flips, the vertical one inverted on a turn.
    pub open spec fn first_segment(self) -> Sprite {
        let shape = self.body_type[0];
        Sprite {
            kind: shape.image(),
            pos: self.head.pos,
            hflip: self.head.hflip,
            vflip: if shape == BodySprites::Turn {
                !self.head.vflip
            } else {
                self.head.vflip
            },
        }
    }

    /// A segment between the first and the tail after a tick: it takes the
    /// place and the flips of the segment ahead and shows the shape marked
    /// for its index.
    pub open spec fn inner_segment(self, i: int) -> Sprite {
        Sprite {
            kind: self.body_type[i].image(),
            pos: self.body[i - 1].pos,
            hflip: self.body[i - 1].hflip,
            vflip: self.body[i - 1].vflip,
        }
    }

    /// Whether the tail at index `i` gets the vertical end cap. A straight
    /// piece ahead gives its own axis. Where the tail arrives on a corner,
    /// the cap is vertical exactly if the two neighbours ahead of it stand
    /// in one column.
    pub open spec fn tail_upright(self, i: int) -> bool {
        match self.body_type[i] {
            BodySprites::StraightVertical => true,
            BodySprites::StraightHorizontal => false,
            BodySprites::Turn => self.body[i - 1].pos.x == self.ahead_pos(i - 1).x,
        }
    }

    /// The tail after a tick, for a tail at index `i >= 1`: an end cap at
    /// the place of the segment ahead. A vertical cap inverts its own
    /// horizontal flip and takes the vertical flip of the segment ahead,
    /// inverted on a corner; a horizontal cap takes the horizontal flip of
    /// the segment ahead and inverts its own vertical flip.
    pub open spec fn tail_segment(self, i: int) -> Sprite {
        let own = self.body[i];
        let ahead = self.body[i - 1];
        if self.tail_upright(i) {
            Sprite {
                kind: SpriteKind::SnakeBodyEndVertical,
                pos: ahead.pos,
                hflip: !own.hflip,
                vflip: if self.body_type[i] == BodySprites::Turn {
                    !ahead.vflip
                } else {
                    ahead.vflip
                },
            }
        } else {
            Sprite {
                kind: SpriteKind::SnakeBodyEndHorizontal,
                pos: ahead.pos,
                hflip: ahead.hflip,
                vflip: !own.vflip,
            }
        }
    }

    /// Entry `i` of the body store after every segment has followed.
    /// Entries past the length stay as they are.
    pub open spec fn moved_segment(self, i: int) -> Sprite {
        if i >= self.length {
            self.body[i]
        } else if i == 0 {
            self.first_segment()
        } else if i == self.length - 1 {
            self.tail_segment(i)
        } else {
            self.inner_segment(i)
        }
    }

    /// Entry `j` of the shape marks after every segment has followed: each
    /// segment but the tail hands its mark one index down the body.
    pub open spec fn moved_type(self, j: int) -> BodySprites {
        if self.length >= 1 && 1 <= j && (j == 1 || j <= self.length - 1) {
            self.body_type[j - 1]
        } else {
            self.body_type[j]
        }
    }

    /// The snake after every segment in use has followed the one ahead of
    /// it; the head has not moved yet.
    pub open spec fn followed(self) -> SnakeModel {
        SnakeModel {
            body: Seq::new(BODY_CAPACITY as nat, |i: int| self.moved_segment(i)),
            body_type: Seq::new(BODY_CAPACITY as nat, |j: int| self.moved_type(j)),
            ..self
        }
    }

    /// The snake after one tick with the given readings of the two axes.
    pub open spec fn ticked(self, x_tri: Tri, y_tri: Tri) -> SnakeModel {
        let steered = self.steered(x_tri, y_tri);
        let followed = steered.followed();
        SnakeModel {
            head: Sprite { pos: advanced(steered.head.pos, steered.movement), ..followed.head },
            ..followed
        }
    }
}

impl SnakeModel {
    /// The snake after a run of ticks, one pair of readings for each.
    pub open spec fn ticked_all(self, inputs: Seq<(Tri, Tri)>) -> SnakeModel
        decreases inputs.len(),
    {
        if inputs.len() == 0 {
            self
        } else {
            let last = inputs.last();
            self.ticked_all(inputs.drop_last()).ticked(last.0, last.1)
        }
    }

    /// A tick keeps a sound snake sound.
    pub proof fn lemma_tick_sound(self, x_tri: Tri, y_tri: Tri)
        requires
            self.sound(),
        ensures
            self.ticked(x_tri, y_tri).sound(),
    {
    }

    /// A tick leaves the length as it is and touches no entry of the body
    /// store past it.
    pub proof fn lemma_tick_keeps_length(self, x_tri: Tri, y_tri: Tri)
        requires
            self.sound(),
        ensures
            self.ticked(x_tri, y_tri).length == self.length,
            forall|i: int|
                self.length <= i < BODY_CAPACITY ==> #[trigger] self.ticked(x_tri, y_tri).body[i]
                    == self.body[i],
    {
    }

    /// After any number of ticks the snake has the length it began with,
    /// and the entries of the body store past it are as they were.
    pub proof fn lemma_ticks_keep_length(self, inputs: Seq<(Tri, Tri)>)
        requires
            self.sound(),
        ensures
            self.ticked_all(inputs).sound(),
            self.ticked_all(inputs).length == self.length,
            forall|i: int|
                self.length <= i < BODY_CAPACITY ==> #[trigger] self.ticked_all(inputs).body[i]
                    == self.body[i],
        decreases inputs.len(),
    {
        if inputs.len() > 0 {
            let last = inputs.last();
            let earlier = self.ticked_all(inputs.drop_last());
            self.lemma_ticks_keep_length(inputs.drop_last());
            earlier.lemma_tick_sound(last.0, last.1);
            earlier.lemma_tick_keeps_length(last.0, last.1);
        }
    }

    /// In a tick the first segment moves to where the head stood, and every
    /// later segment in use, the tail included, to where the segment ahead
    /// of it stood.
    pub proof fn lemma_tick_follows(self, x_tri: Tri, y_tri: Tri)
        requires
            self.sound(),
        ensures
            self.length >= 1 ==> self.ticked(x_tri, y_tri).body[0].pos == self.head.pos,
            forall|i: int|
                0 < i < self.length ==> (#[trigger] self.ticked(x_tri, y_tri).body[i]).pos
                    == self.body[i - 1].pos,
    {
    }

    /// A tick keeps a well-formed snake well-formed: it stays on the
    /// display, the head stays one step ahead of the first segment, and
    /// every segment between head and tail still fits its neighbours.
    pub proof fn lemma_tick_wf(self, x_tri: Tri, y_tri: Tri)
        requires
            self.wf(),
        ensures
            self.ticked(x_tri, y_tri).wf(),
    {
        let steered = self.steered(x_tri, y_tri);
        let after = self.ticked(x_tri, y_tri);
        lemma_advanced_on_display(steered.head.pos, steered.movement);
        assert forall|i: int| 0 <= i < after.length - 1 implies #[trigger] after.fits(i) by {
            if i == 0 {
                // The new first segment lies between the old step of the
                // head and its new one.
                lemma_advanced_is_step(self.body[0].pos, self.movement);
                lemma_advanced_is_step(self.head.pos, steered.movement);
            } else {
                // Every other segment has moved into a joint that fitted.
                assert(self.fits(i - 1));
            }
        }
    }

    /// After any number of ticks a well-formed snake is well-formed.
    pub proof fn lemma_ticks_wf(self, inputs: Seq<(Tri, Tri)>)
        requires
            self.wf(),
        ensures
            self.ticked_all(inputs).wf(),
        decreases inputs.len(),
    {
        if inputs.len() > 0 {
            let last = inputs.last();
            self.lemma_ticks_wf(inputs.drop_last());
            self.ticked_all(inputs.drop_last()).lemma_tick_wf(last.0, last.1);
        }
    }

    /// In a well-formed snake a segment between head and tail that shows
    /// the turn joins one neighbour by a step along x and the other by a
    /// step along y, and never both by steps along one axis.
    pub proof fn lemma_turn_is_corner(self, i: int)
        requires
            self.wf(),
            0 <= i < self.length - 1,
            self.body[i].kind == SpriteKind::SnakeBodyTurn,
        ensures
            ({
                let behind = self.body[i + 1].pos;
                let at = self.body[i].pos;
                let ahead = self.ahead_pos(i);
                &&& (step_horizontal(behind, at) && step_vertical(at, ahead))
                    || (step_vertical(behind, at) && step_horizontal(at, ahead))
                &&& !(step_horizontal(behind, at) && step_horizontal(at, ahead))
                &&& !(step_vertical(behind, at) && step_vertical(at, ahead))
            }),
    {
        assert(self.fits(i));
        lemma_steps_exclude(self.body[i + 1].pos, self.body[i].pos);
        lemma_steps_exclude(self.body[i].pos, self.ahead_pos(i));
    }

    /// Where neither neighbour of a turn lies across an edge of the display
    /// from it, one neighbour stands exactly one grid pitch away in x and
    /// the other exactly one grid pitch away in y.
    pub proof fn lemma_turn_is_one_pitch_each_way(self, i: int)
        requires
            self.wf(),
            0 <= i < self.length - 1,
            self.body[i].kind == SpriteKind::SnakeBodyTurn,
            !across_edge(self.body[i + 1].pos, self.body[i].pos),
            !across_edge(self.body[i].pos, self.ahead_pos(i)),
        ensures
            ({
                let behind = self.body[i + 1].pos;
                let at = self.body[i].pos;
                let ahead = self.ahead_pos(i);
                ||| pitch_apart_in_x(behind, at) && pitch_apart_in_y(at, ahead)
                ||| pitch_apart_in_y(behind, at) && pitch_apart_in_x(at, ahead)
            }),
    {
        self.lemma_turn_is_corner(i);
        lemma_step_inside_is_one_pitch(self.body[i + 1].pos, self.body[i].pos);
        lemma_step_inside_is_one_pitch(self.body[i].pos, self.ahead_pos(i));
    }

    /// Where the tail of a well-formed snake is about to move onto a turn,
    /// it gets the vertical cap exactly if it enters the corner by a step
    /// along x, which is exactly if the snake leaves the corner by a step
    /// along y. The cap lies across the run that the tail came along.
    pub proof fn lemma_tail_cap_on_corner(self)
        requires
            self.wf(),
            self.length >= 2,
            self.body_type[self.length - 1] == BodySprites::Turn,
        ensures
            ({
                let tail = self.length - 1;
                let corner = self.body[tail - 1].pos;
                &&& self.tail_upright(tail) <==> step_horizontal(self.body[tail].pos, corner)
                &&& self.tail_upright(tail) <==> step_vertical(corner, self.ahead_pos(tail - 1))
            }),
    {
        let tail = self.length - 1;
        assert(self.fits(tail - 1));
        lemma_steps_exclude(self.body[tail].pos, self.body[tail - 1].pos);
        lemma_steps_exclude(self.body[tail - 1].pos, self.ahead_pos(tail - 1));
    }

    /// Whether the snake leaves the cell that shape mark `k` describes by a
    /// step along y, read off the marks alone by a walk towards the head.
    /// Mark 0 describes the cell of the head, which the head leaves along
    /// the axis of the movement. Mark `k` describes the cell of segment
    /// `k - 1`; the snake leaves it along the axis of the mark before where
    /// that mark is straight, and across the axis by which it leaves the
    /// cell of the mark before where that mark is a turn.
    pub open spec fn leaves_upright(self, k: int) -> bool
        decreases k,
    {
        if k <= 0 {
            !self.horizontal
        } else {
            match self.body_type[k - 1] {
                BodySprites::StraightVertical => true,
                BodySprites::StraightHorizontal => false,
                BodySprites::Turn => !self.leaves_upright(k - 1),
            }
        }
    }

    /// Once a well-formed snake has taken in its input, the walk over the
    /// marks tells for every segment in use the axis of the step that leads
    /// from it to its neighbour ahead.
    pub proof fn lemma_marks_tell_steps(self, x_tri: Tri, y_tri: Tri, k: int)
        requires
            self.wf(),
            1 <= k <= self.length,
        ensures
            self.steered(x_tri, y_tri).leaves_upright(k) <==> step_vertical(
                self.body[k - 1].pos,
                self.ahead_pos(k - 1),
            ),
        decreases k,
    {
        let steered = self.steered(x_tri, y_tri);
        if k == 1 {
            assert(steered.leaves_upright(0) == !steered.horizontal);
        } else {
            self.lemma_marks_tell_steps(x_tri, y_tri, k - 1);
            assert(self.fits(k - 2));
        }
    }

    /// For a well-formed snake of two or more segments that has taken in
    /// its input, comparing the columns of the two neighbours ahead of the
    /// tail and walking the shape marks towards the head until one is
    /// straight give the same cap.
    pub proof fn lemma_tail_cap_by_marks(self, x_tri: Tri, y_tri: Tri)
        requires
            self.wf(),
            self.length >= 2,
        ensures
            self.steered(x_tri, y_tri).tail_upright(self.length - 1) <==> self.steered(
                x_tri,
                y_tri,
            ).leaves_upright(self.length - 1),
    {
        self.lemma_marks_tell_steps(x_tri, y_tri, self.length - 1);
        assert(self.fits(self.length - 2));
    }

    /// After a tick of a well-formed snake of two or more segments the tail
    /// shows an end cap, and the cap lies along the step that leads from
    /// the tail to the segment ahead of it.
    pub proof fn lemma_tail_cap_points_ahead(self, x_tri: Tri, y_tri: Tri)
        requires
            self.wf(),
            self.length >= 2,
        ensures
            ({
                let after = self.ticked(x_tri, y_tri);
                let tail = self.length - 1;
                &&& after.body[tail].kind == SpriteKind::SnakeBodyEndVertical
                    || after.body[tail].kind == SpriteKind::SnakeBodyEndHorizontal
                &&& after.body[tail].kind == SpriteKind::SnakeBodyEndVertical <==> step_vertical(
                    after.body[tail].pos,
                    after.body[tail - 1].pos,
                )
                &&& after.body[tail].kind == SpriteKind::SnakeBodyEndHorizontal <==> step_horizontal(
                    after.body[tail].pos,
                    after.body[tail - 1].pos,
                )
            }),
    {
        assert(self.fits(self.length - 2));
    }
}

} // verus!
