//! The game: the snake, the fruit store, the counter that lets one tick
//! happen every so many frames, and the spawner that places fruit on free
//! cells from random numbers handed in one at a time.

use crate::grid::{Position, SEGMENT_SIZE};
use crate::input::Tri;
use crate::model::game::{reduced, GameModel};
use crate::snake::Snake;
use crate::sprite::{Sprite, SpriteKind, FRUIT_KINDS};
use vstd::arithmetic::div_mod::lemma_mod_bound;
use vstd::prelude::*;

verus! {

/// Number of fruit sprites the game has room for.
pub const FRUIT_CAPACITY: usize = 8;

/// Frames from one tick to the next: the frame in which the frame counter
/// reaches this number brings the tick and starts the counter anew.
pub const TICK_FRAMES: u32 = 15;

/// Columns of the grid that fruit is placed on.
pub const FRUIT_COLUMNS: i32 = 14;

/// Rows of the grid that fruit is placed on.
pub const FRUIT_ROWS: i32 = 9;

/// Where the spawner stands, and so what the next random number is for.
#[derive(Clone, Copy, Debug, PartialEq, Eq, Structural)]
pub enum Spawn {
    /// No respawn is under way; a random number is discarded.
    Idle,
    /// The next number decides how many fruits are placed.
    Count,
    /// The next number decides the image of the fruit in `slot`.
    Kind { count: usize, slot: usize },
    /// The next number decides the column tried for the fruit in `slot`.
    Column { count: usize, slot: usize },
    /// The next number decides the row tried for the fruit in `slot`, in the
    /// column at `x`.
    Row { count: usize, slot: usize, x: i32 },
}

/// What the caller is to do next.
#[derive(Clone, Copy, Debug, PartialEq, Eq, Structural)]
pub enum Action {
    /// Show what is visible and go on to the next frame.
    Render,
    /// Hand the game the next random number.
    Roll,
}

/// The whole game as the program holds it.
pub struct GameState {
    snake: Snake,
    fruits: Vec<Sprite>,
    fruit_amount: usize,
    wait: u32,
    spawn: Spawn,
}

impl View for GameState {
    type V = GameModel;

    closed spec fn view(&self) -> GameModel {
        GameModel {
            snake: self.snake@,
            fruits: self.fruits@,
            fruit_amount: self.fruit_amount as int,
            wait: self.wait as int,
            spawn: self.spawn,
        }
    }
}

/// Brings a random number into `[0, range)` by its Euclidean remainder.
fn reduce(draw: i32, range: i32) -> (r: i32)
    requires
        range > 0,
    ensures
        r == reduced(draw, range as int),
        0 <= r < range,
{
    proof {
        lemma_mod_bound(draw as int, range as int);
    }
    match draw.checked_rem_euclid(range) {
        Some(r) => r,
        None => 0,
    }
}

impl GameState {
    /// The game before its first frame.
    pub fn new() -> (game: GameState)
        ensures
            game@ == GameModel::start(),
            game@.wf(),
    {
        GameState::around(Snake::new())
    }

    /// The game around a given snake before its first frame: eight apples
    /// in store, none of them shown.
    pub fn around(snake: Snake) -> (game: GameState)
        requires
            snake@.wf(),
        ensures
            game@ == GameModel::around(snake@),
            game@.wf(),
    {
        let mut fruits: Vec<Sprite> = Vec::new();
        let mut i: usize = 0;
        while i < FRUIT_CAPACITY
            invariant
                i <= FRUIT_CAPACITY,
                fruits@.len() == i,
                forall|k: int| 0 <= k < i ==> fruits@[k] == Sprite::fresh(SpriteKind::Apple),
            decreases FRUIT_CAPACITY - i,
        {
            fruits.push(Sprite::new(SpriteKind::Apple));
            i = i + 1;
        }
        let game = GameState { snake, fruits, fruit_amount: 0, wait: 0, spawn: Spawn::Idle };
        proof {
            assert(game@.fruits =~= GameModel::around(snake@).fruits);
            assert(SpriteKind::Apple == SpriteKind::fruit_at(0));
        }
        game
    }

    /// The snake.
    pub fn snake(&self) -> (snake: &Snake)
        ensures
            snake@ == self@.snake,
    {
        &self.snake
    }

    /// Entry `index` of the fruit store, shown or not, or nothing past the
    /// end of the store.
    pub fn fruit(&self, index: usize) -> (sprite: Option<Sprite>)
        ensures
            sprite == if index < self@.fruits.len() {
                Some(self@.fruits[index as int])
            } else {
                None
            },
    {
        if index < self.fruits.len() {
            Some(self.fruits[index])
        } else {
            None
        }
    }

    /// Number of fruits shown.
    pub fn fruit_amount(&self) -> (amount: usize)
        ensures
            amount == self@.fruit_amount,
    {
        self.fruit_amount
    }

    /// Frames counted since the last tick, always below `TICK_FRAMES`.
    pub fn wait(&self) -> (wait: u32)
        ensures
            wait == self@.wait,
    {
        self.wait
    }

    /// Where the spawner stands.
    pub fn spawn(&self) -> (spawn: Spawn)
        ensures
            spawn == self@.spawn,
    {
        self.spawn
    }

    /// What the caller is to do next.
    pub fn action(&self) -> (action: Action)
        ensures
            action == self@.action(),
    {
        match self.spawn {
            Spawn::Idle => Action::Render,
            _ => Action::Roll,
        }
    }

    /// Runs one frame with the readings of the two axes of the pad. A frame
    /// counts itself on the frame counter. Fourteen frames in fifteen do no
    /// more; with the fifteenth the counter reaches its threshold and starts
    /// anew, the snake ticks and, where no fruit is shown, a respawn begins.
    /// A frame that comes while a respawn is under way changes nothing. The
    /// result says whether the frame can be rendered or the game wants a
    /// random number first.
    pub fn frame(&mut self, x_tri: Tri, y_tri: Tri) -> (action: Action)
        requires
            old(self)@.wf(),
        ensures
            final(self)@ == old(self)@.framed(x_tri, y_tri),
            final(self)@.wf(),
            action == final(self)@.action(),
    {
        proof {
            self@.lemma_frame_wf(x_tri, y_tri);
        }
        match self.spawn {
            Spawn::Idle => {
                let counted: u32 = self.wait + 1;
                if counted == TICK_FRAMES {
                    self.snake.tick(x_tri, y_tri);
                    if self.fruit_amount == 0 {
                        self.spawn = Spawn::Count;
                    }
                    self.wait = 0;
                } else {
                    self.wait = counted;
                }
            },
            _ => {},
        }
        self.action()
    }

    /// Hands the game one random number. With no respawn under way it is
    /// discarded. In a respawn it decides, by its Euclidean remainder, the
    /// next open question: the number of fruits, the image of a fruit, the
    /// column or the row of the cell tried for it. A cell on which the head
    /// or a segment in use stands is refused, and column and row are asked
    /// for again. The result says whether the game wants another number.
    pub fn feed(&mut self, draw: i32) -> (action: Action)
        requires
            old(self)@.wf(),
        ensures
            final(self)@ == old(self)@.fed(draw),
            final(self)@.wf(),
            action == final(self)@.action(),
            old(self)@.spawn != Spawn::Idle ==> final(self)@.fruits_clear(),
    {
        proof {
            self@.lemma_fed_clear(draw);
        }
        match self.spawn {
            Spawn::Idle => {},
            Spawn::Count => {
                let count: i32 = reduce(draw, FRUIT_CAPACITY as i32);
                if count == 0 {
                    self.spawn = Spawn::Idle;
                } else {
                    self.spawn = Spawn::Kind { count: count as usize, slot: 0 };
                }
            },
            Spawn::Kind { count, slot } => {
                let kind: SpriteKind = SpriteKind::fruit(reduce(draw, FRUIT_KINDS));
                let old_fruit: Sprite = self.fruits[slot];
                self.fruits.set(slot, Sprite { kind, ..old_fruit });
                self.spawn = Spawn::Column { count, slot };
            },
            Spawn::Column { count, slot } => {
                let x: i32 = reduce(draw, FRUIT_COLUMNS) * SEGMENT_SIZE;
                self.spawn = Spawn::Row { count, slot, x };
            },
            Spawn::Row { count, slot, x } => {
                let y: i32 = reduce(draw, FRUIT_ROWS) * SEGMENT_SIZE;
                let cell = Position { x, y };
                if self.snake.occupies(cell) {
                    self.spawn = Spawn::Column { count, slot };
                } else {
                    let old_fruit: Sprite = self.fruits[slot];
                    self.fruits.set(slot, Sprite { pos: cell, ..old_fruit });
                    if slot + 1 == count {
                        self.fruit_amount = count;
                        self.spawn = Spawn::Idle;
                    } else {
                        self.spawn = Spawn::Kind { count, slot: slot + 1 };
                    }
                }
            },
        }
        self.action()
    }

    /// What a frame shows, in the order it is painted: the head, the body
    /// segments in use from the first to the tail, then the fruits shown.
    pub fn visible(&self) -> (shown: Vec<Sprite>)
        requires
            self@.wf(),
        ensures
            shown@ == self@.visible(),
            shown@.len() == 1 + self@.snake.length + self@.fruit_amount,
    {
        let mut shown: Vec<Sprite> = Vec::new();
        shown.push(self.snake.head());
        let length: usize = self.snake.snake_length();
        let mut i: usize = 0;
        while i < length
            invariant
                self@.wf(),
                length == self@.snake.length,
                i <= length,
                shown@ == seq![self@.snake.head] + self@.snake.body.subrange(0, i as int),
            decreases length - i,
        {
            match self.snake.segment(i) {
                Some(sprite) => {
                    shown.push(sprite);
                },
                None => {},
            }
            assert(self@.snake.body.subrange(0, i + 1) =~= self@.snake.body.subrange(0, i as int).push(
                self@.snake.body[i as int],
            ));
            i = i + 1;
        }
        let ghost snake_part = shown@;
        let mut k: usize = 0;
        while k < self.fruit_amount
            invariant
                self@.wf(),
                k <= self.fruit_amount,
                snake_part == seq![self@.snake.head] + self@.snake.body.subrange(0, self@.snake.length),
                shown@ == snake_part + self@.fruits.subrange(0, k as int),
            decreases self.fruit_amount - k,
        {
            shown.push(self.fruits[k]);
            assert(self@.fruits.subrange(0, k + 1) =~= self@.fruits.subrange(0, k as int).push(
                self@.fruits[k as int],
            ));
            k = k + 1;
        }
        shown
    }
}

} // verus!
