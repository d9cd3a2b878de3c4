//! The game as contracts speak of it: what a frame and a random number
//! make of it, and the laws that hold of them.

use crate::game::{Action, Spawn, FRUIT_CAPACITY, FRUIT_COLUMNS, FRUIT_ROWS, TICK_FRAMES};
use crate::grid::{Position, SEGMENT_SIZE};
use crate::input::Tri;
use crate::model::snake::SnakeModel;
use crate::snake::BODY_CAPACITY;
use crate::sprite::{Sprite, SpriteKind, FRUIT_KINDS};
use vstd::prelude::*;

verus! {

/// The whole game as contracts speak of it. `fruits` always has
/// `FRUIT_CAPACITY` entries, of which the first `fruit_amount` are shown.
pub struct GameModel {
    pub snake: SnakeModel,
    pub fruits: Seq<Sprite>,
    pub fruit_amount: int,
    pub wait: int,
    pub spawn: Spawn,
}

/// A random number brought into `[0, range)`: its Euclidean remainder.
pub open spec fn reduced(draw: i32, range: int) -> int {
    draw as int % range
}

/// Whether `p` is the corner of a cell of the grid that fruit is placed on.
pub open spec fn is_fruit_cell(p: Position) -> bool {
    &&& 0 <= p.x < FRUIT_COLUMNS * SEGMENT_SIZE
    &&& p.x % SEGMENT_SIZE == 0
    &&& 0 <= p.y < FRUIT_ROWS * SEGMENT_SIZE
    &&& p.y % SEGMENT_SIZE == 0
}

impl GameModel {
    /// Number of fruits that the spawner has placed for good: while a
    /// respawn is under way those before the current slot, else those shown.
    pub open spec fn placed(self) -> int {
        match self.spawn {
            Spawn::Idle => self.fruit_amount,
            Spawn::Count => 0,
            Spawn::Kind { count, slot } => slot as int,
            Spawn::Column { count, slot } => slot as int,
            Spawn::Row { count, slot, x } => slot as int,
        }
    }

    /// No placed fruit stands where the head or a segment in use stands.
    pub open spec fn fruits_clear(self) -> bool {
        forall|i: int| 0 <= i < self.placed() ==> !self.snake.occupies(#[trigger] self.fruits[i].pos)
    }

    /// The spawner's bookkeeping is in order: while a respawn is under way
    /// no fruit is shown, the slot lies below the count that was drawn, the
    /// count below the capacity, and a column that was drawn is one of the
    /// grid.
    pub open spec fn spawn_wf(self) -> bool {
        match self.spawn {
            Spawn::Idle => true,
            Spawn::Count => self.fruit_amount == 0,
            Spawn::Kind { count, slot } => self.fruit_amount == 0 && slot < count < FRUIT_CAPACITY,
            Spawn::Column { count, slot } => self.fruit_amount == 0 && slot < count < FRUIT_CAPACITY,
            Spawn::Row { count, slot, x } => {
                &&& self.fruit_amount == 0
                &&& slot < count < FRUIT_CAPACITY
                &&& 0 <= x < FRUIT_COLUMNS * SEGMENT_SIZE
                &&& x % SEGMENT_SIZE == 0
            },
        }
    }

    /// A well-formed snake, a fruit store of fixed size that holds fruit
    /// images on cells of the grid, counters within their bounds, and, while
    /// a respawn is under way, every fruit placed so far off the snake.
    pub open spec fn wf(self) -> bool {
        &&& self.snake.wf()
        &&& self.fruits.len() == FRUIT_CAPACITY
        &&& 0 <= self.fruit_amount < FRUIT_CAPACITY
        &&& 0 <= self.wait < TICK_FRAMES
        &&& forall|i: int|
            0 <= i < FRUIT_CAPACITY ==> (#[trigger] self.fruits[i]).kind.is_fruit() && is_fruit_cell(
                self.fruits[i].pos,
            )
        &&& self.spawn_wf()
        &&& self.spawn != Spawn::Idle ==> self.fruits_clear()
    }

    /// The game around a given snake before its first frame: eight apples
    /// in store, none of them shown, no frame counted, no respawn under way.
    pub open spec fn around(snake: SnakeModel) -> GameModel {
        GameModel {
            snake,
            fruits: Seq::new(FRUIT_CAPACITY as nat, |i: int| Sprite::fresh(SpriteKind::Apple)),
            fruit_amount: 0,
            wait: 0,
            spawn: Spawn::Idle,
        }
    }

    /// The game before its first frame.
    pub open spec fn start() -> GameModel {
        Self::around(SnakeModel::start())
    }

    /// What the caller is to do next: roll while a respawn is under way,
    /// else render.
    pub open spec fn action(self) -> Action {
        if self.spawn == Spawn::Idle {
            Action::Render
        } else {
            Action::Roll
        }
    }

    /// The game after one frame with the given readings of the two axes.
    /// While a respawn is under way a frame changes nothing. Otherwise the
    /// frame counter goes up by one. The frame in which it reaches
    /// `TICK_FRAMES` brings a tick of the snake and starts the counter anew,
    /// and where no fruit is shown it starts a respawn.
    pub open spec fn framed(self, x_tri: Tri, y_tri: Tri) -> GameModel {
        if self.spawn != Spawn::Idle {
            self
        } else if self.wait + 1 == TICK_FRAMES {
            GameModel {
                snake: self.snake.ticked(x_tri, y_tri),
                wait: 0,
                spawn: if self.fruit_amount == 0 {
                    Spawn::Count
                } else {
                    Spawn::Idle
                },
                ..self
            }
        } else {
            GameModel { wait: self.wait + 1, ..self }
        }
    }

    /// The game after it was handed one random number. With no respawn
    /// under way the number is discarded. In a respawn the numbers decide in
    /// turn: how many fruits there will be, from 0 to 7; then for each fruit
    /// its image, and a column and a row again and again until the cell
    /// they name is free of the snake. The fruits are shown once the last
    /// of them is placed.
    pub open spec fn fed(self, draw: i32) -> GameModel {
        match self.spawn {
            Spawn::Idle => self,
            Spawn::Count => {
                let count = reduced(draw, FRUIT_CAPACITY as int);
                GameModel {
                    spawn: if count == 0 {
                        Spawn::Idle
                    } else {
                        Spawn::Kind { count: count as usize, slot: 0 }
                    },
                    ..self
                }
            },
            Spawn::Kind { count, slot } => {
                let kind = SpriteKind::fruit_at(reduced(draw, FRUIT_KINDS as int));
                GameModel {
                    fruits: self.fruits.update(slot as int, Sprite { kind, ..self.fruits[slot as int] }),
                    spawn: Spawn::Column { count, slot },
                    ..self
                }
            },
            Spawn::Column { count, slot } => {
                let x = (reduced(draw, FRUIT_COLUMNS as int) * SEGMENT_SIZE) as i32;
                GameModel { spawn: Spawn::Row { count, slot, x }, ..self }
            },
            Spawn::Row { count, slot, x } => {
                let cell = Position { x, y: (reduced(draw, FRUIT_ROWS as int) * SEGMENT_SIZE) as i32 };
                if self.snake.occupies(cell) {
                    GameModel { spawn: Spawn::Column { count, slot }, ..self }
                } else {
                    let fruits = self.fruits.update(slot as int, Sprite { pos: cell, ..self.fruits[slot as int] });
                    if slot + 1 == count {
                        GameModel { fruits, fruit_amount: count as int, spawn: Spawn::Idle, ..self }
                    } else {
                        GameModel { fruits, spawn: Spawn::Kind { count, slot: (slot + 1) as usize }, ..self }
                    }
                }
            },
        }
    }

    /// The game after a run of frames, one pair of readings for each.
    pub open spec fn framed_all(self, inputs: Seq<(Tri, Tri)>) -> GameModel
        decreases inputs.len(),
    {
        if inputs.len() == 0 {
            self
        } else {
            let last = inputs.last();
            self.framed_all(inputs.drop_last()).framed(last.0, last.1)
        }
    }

    /// The game after it was handed a run of random numbers, one by one.
    pub open spec fn fed_all(self, draws: Seq<i32>) -> GameModel
        decreases draws.len(),
    {
        if draws.len() == 0 {
            self
        } else {
            self.fed_all(draws.drop_last()).fed(draws.last())
        }
    }

    /// What a frame shows, in the order it is painted: the head, the body
    /// segments in use from the first to the tail, then the fruits shown.
    pub open spec fn visible(self) -> Seq<Sprite> {
        seq![self.snake.head] + self.snake.body.subrange(0, self.snake.length) + self.fruits.subrange(
            0,
            self.fruit_amount,
        )
    }

    /// A frame keeps a well-formed game well-formed.
    pub proof fn lemma_frame_wf(self, x_tri: Tri, y_tri: Tri)
        requires
            self.wf(),
        ensures
            self.framed(x_tri, y_tri).wf(),
    {
        self.snake.lemma_tick_wf(x_tri, y_tri);
    }

    /// With no respawn under way, fewer frames than are left until the
    /// counter reaches its threshold change nothing but the counter,
    /// whatever the pad reads.
    pub proof fn lemma_frames_only_count(self, inputs: Seq<(Tri, Tri)>)
        requires
            self.wf(),
            self.spawn == Spawn::Idle,
            self.wait + inputs.len() < TICK_FRAMES,
        ensures
            self.framed_all(inputs) == (GameModel { wait: self.wait + inputs.len(), ..self }),
        decreases inputs.len(),
    {
        if inputs.len() > 0 {
            self.lemma_frames_only_count(inputs.drop_last());
        }
    }

    /// With no respawn under way and the counter at zero, fifteen frames
    /// bring exactly one tick of the snake, with the readings of the
    /// fifteenth frame, and leave the counter at zero again.
    pub proof fn lemma_fifteen_frames_one_tick(self, inputs: Seq<(Tri, Tri)>)
        requires
            self.wf(),
            self.spawn == Spawn::Idle,
            self.wait == 0,
            inputs.len() == TICK_FRAMES,
        ensures
            self.framed_all(inputs).snake == self.snake.ticked(inputs.last().0, inputs.last().1),
            self.framed_all(inputs).wait == 0,
            self.framed_all(inputs).fruits == self.fruits,
            self.framed_all(inputs).fruit_amount == self.fruit_amount,
    {
        self.lemma_frames_only_count(inputs.drop_last());
    }

    /// Neither a frame nor a random number changes the length of the snake
    /// or an entry of the body store past it, and a frame shows the head,
    /// exactly `length` body segments and the fruits.
    pub proof fn lemma_segment_count(self, x_tri: Tri, y_tri: Tri, draw: i32)
        requires
            self.wf(),
        ensures
            self.framed(x_tri, y_tri).snake.length == self.snake.length,
            self.fed(draw).snake == self.snake,
            forall|i: int|
                self.snake.length <= i < BODY_CAPACITY ==> #[trigger] self.framed(
                    x_tri,
                    y_tri,
                ).snake.body[i] == self.snake.body[i],
            self.visible().len() == 1 + self.snake.length + self.fruit_amount,
            forall|i: int| 0 <= i < self.snake.length ==> #[trigger] self.visible()[1 + i] == self.snake.body[i],
    {
        self.snake.lemma_tick_keeps_length(x_tri, y_tri);
    }

    /// A random number keeps a well-formed game well-formed, and in a
    /// respawn it leaves every fruit placed so far on a cell where neither
    /// the head nor a segment in use stands. When the respawn ends with this
    /// number, that holds of every fruit shown.
    pub proof fn lemma_fed_clear(self, draw: i32)
        requires
            self.wf(),
        ensures
            self.fed(draw).wf(),
            self.spawn != Spawn::Idle ==> self.fed(draw).fruits_clear(),
            self.spawn != Spawn::Idle && self.fed(draw).spawn == Spawn::Idle ==> forall|i: int|
                0 <= i < self.fed(draw).fruit_amount ==> !self.snake.occupies(
                    #[trigger] self.fed(draw).fruits[i].pos,
                ),
    {
        // A number that places nothing leaves the placed fruits where they
        // are; one that places a fruit puts it on a cell the snake is not on.
        let after = self.fed(draw);
        if self.spawn != Spawn::Idle {
            assert forall|i: int| 0 <= i < after.placed() implies !after.snake.occupies(
                #[trigger] after.fruits[i].pos,
            ) by {
                if i < self.placed() {
                    assert(!self.snake.occupies(self.fruits[i].pos));
                }
            }
        }
    }

    /// Over a whole respawn, whatever numbers are drawn and however many,
    /// the snake stays as it is, and every fruit placed, which once the
    /// respawn has ended is every fruit shown, stands on a cell where
    /// neither the head nor a segment in use stands.
    pub proof fn lemma_respawn_clear(self, draws: Seq<i32>)
        requires
            self.wf(),
            self.spawn != Spawn::Idle,
        ensures
            self.fed_all(draws).wf(),
            self.fed_all(draws).snake == self.snake,
            self.fed_all(draws).fruits_clear(),
            self.fed_all(draws).spawn == Spawn::Idle ==> forall|i: int|
                0 <= i < self.fed_all(draws).fruit_amount ==> !self.snake.occupies(
                    #[trigger] self.fed_all(draws).fruits[i].pos,
                ),
        decreases draws.len(),
    {
        if draws.len() > 0 {
            let earlier = self.fed_all(draws.drop_last());
            self.lemma_respawn_clear(draws.drop_last());
            earlier.lemma_fed_clear(draws.last());
        }
    }
}

} // verus!