//! The snake: a head, a fixed store of body segments of which the first
//! `length` are in use, and the per-tick update that steers the head, moves
//! it with wraparound and lets every segment follow the one ahead of it.

use crate::grid::{advance, Movement, Position, DISPLAY_HEIGHT, DISPLAY_WIDTH, SEGMENT_SIZE};
use crate::input::Tri;
use crate::model::snake::SnakeModel;
use crate::sprite::{BodySprites, Sprite, SpriteKind};
use vstd::prelude::*;

verus! {

/// Number of body segments the snake has room for.
pub const BODY_CAPACITY: usize = 119;

/// The x coordinate of the head when a game begins.
pub const START_X: i32 = 112;

/// The y coordinate of the head when a game begins.
pub const START_Y: i32 = 64;

/// Number of body segments in use when a game begins.
pub const START_LENGTH: usize = 2;

/// The snake as the game holds it.
pub struct Snake {
    head: Sprite,
    body: Vec<Sprite>,
    body_type: Vec<BodySprites>,
    length: usize,
    movement: Movement,
    horizontal: bool,
}

impl View for Snake {
    type V = SnakeModel;

    closed spec fn view(&self) -> SnakeModel {
        SnakeModel {
            head: self.head,
            body: self.body@,
            body_type: self.body_type@,
            length: self.length as int,
            movement: self.movement,
            horizontal: self.horizontal,
        }
    }
}

impl Snake {
    /// Builds a snake that hangs straight down from its head.
    fn build(head: Position, length: usize) -> (snake: Snake)
        requires
            SnakeModel::fits_upright(head, length as int),
        ensures
            snake@ == SnakeModel::upright(head, length as int),
            snake@.wf(),
    {
        let mut body: Vec<Sprite> = Vec::new();
        let mut body_type: Vec<BodySprites> = Vec::new();
        let mut i: usize = 0;
        while i < BODY_CAPACITY
            invariant
                SnakeModel::fits_upright(head, length as int),
                i <= BODY_CAPACITY,
                body@.len() == i,
                body_type@.len() == i,
                forall|k: int| 0 <= k < i ==> body@[k] == SnakeModel::upright_segment(head, length as int, k),
                forall|k: int| 0 <= k < i ==> body_type@[k] == BodySprites::StraightVertical,
            decreases BODY_CAPACITY - i,
        {
            let sprite = if i < length {
                let kind = if i >= 1 && i == length - 1 {
                    SpriteKind::SnakeBodyEndVertical
                } else {
                    SpriteKind::SnakeBodyStraightVertical
                };
                let below: i32 = SEGMENT_SIZE * (i as i32 + 1);
                Sprite { kind, pos: Position { x: head.x, y: head.y + below }, hflip: false, vflip: false }
            } else {
                Sprite::new(SpriteKind::SnakeBodyStraightVertical)
            };
            body.push(sprite);
            body_type.push(BodySprites::StraightVertical);
            i = i + 1;
        }
        let snake = Snake {
            head: Sprite { kind: SpriteKind::SnakeHeadVertical, pos: head, hflip: false, vflip: false },
            body,
            body_type,
            length,
            movement: Movement { dx: 0, dy: -SEGMENT_SIZE },
            horizontal: false,
        };
        proof {
            let model = SnakeModel::upright(head, length as int);
            assert(snake@.body =~= model.body);
            assert(snake@.body_type =~= model.body_type);
        }
        snake
    }

    /// The snake a game begins with: the head at (112, 64) moving up, two
    /// segments below it, the second of them the tail.
    pub fn new() -> (snake: Snake)
        ensures
            snake@ == SnakeModel::start(),
            snake@.wf(),
    {
        Snake::build(Position { x: START_X, y: START_Y }, START_LENGTH)
    }

    /// A snake that moves up from `head` with `length` segments in a
    /// straight line below it, or nothing where such a snake would not lie
    /// on the display.
    pub fn upright(head: Position, length: usize) -> (made: Option<Snake>)
        ensures
            made is Some <==> SnakeModel::fits_upright(head, length as int),
            made matches Some(snake) ==> snake@ == SnakeModel::upright(head, length as int) && snake@.wf(),
    {
        let last_x: i32 = DISPLAY_WIDTH - SEGMENT_SIZE;
        let last_y: i32 = DISPLAY_HEIGHT - SEGMENT_SIZE;
        if head.x < 0 || head.x > last_x || head.y < 0 || head.y > last_y {
            return None;
        }
        if length > BODY_CAPACITY {
            return None;
        }
        if head.y + SEGMENT_SIZE * (length as i32) > last_y {
            return None;
        }
        Some(Snake::build(head, length))
    }

    /// The head.
    pub fn head(&self) -> (sprite: Sprite)
        ensures
            sprite == self@.head,
    {
        self.head
    }

    /// Entry `index` of the body store, in use or not, or nothing past the
    /// end of the store.
    pub fn segment(&self, index: usize) -> (sprite: Option<Sprite>)
        ensures
            sprite == if index < self@.body.len() {
                Some(self@.body[index as int])
            } else {
                None
            },
    {
        if index < self.body.len() {
            Some(self.body[index])
        } else {
            None
        }
    }

    /// The shape marked for the segment that arrives at `index` in the next
    /// tick, or nothing past the end of the store.
    pub fn shape(&self, index: usize) -> (shape: Option<BodySprites>)
        ensures
            shape == if index < self@.body_type.len() {
                Some(self@.body_type[index as int])
            } else {
                None
            },
    {
        if index < self.body_type.len() {
            Some(self.body_type[index])
        } else {
            None
        }
    }

    /// Number of body segments in use.
    pub fn snake_length(&self) -> (length: usize)
        ensures
            length == self@.length,
    {
        self.length
    }

    /// The displacement of the head in the next tick, unless it turns.
    pub fn movement(&self) -> (movement: Movement)
        ensures
            movement == self@.movement,
    {
        self.movement
    }

    /// Whether the snake moves along the x axis.
    pub fn horizontal(&self) -> (horizontal: bool)
        ensures
            horizontal == self@.horizontal,
    {
        self.horizontal
    }

    /// Whether the head or a segment in use stands exactly at `cell`.
    pub fn occupies(&self, cell: Position) -> (taken: bool)
        requires
            self@.sound(),
        ensures
            taken == self@.occupies(cell),
    {
        if self.head.pos == cell {
            return true;
        }
        let mut i: usize = 0;
        while i < self.length
            invariant
                self@.sound(),
                i <= self.length,
                self.head.pos != cell,
                forall|k: int| 0 <= k < i ==> (#[trigger] self.body@[k]).pos != cell,
            decreases self.length - i,
        {
            if self.body[i].pos == cell {
                return true;
            }
            i = i + 1;
        }
        false
    }

    /// Takes in the input of a tick: reads the axis the snake does not move
    /// along, and on a reading other than zero turns the movement and the
    /// head by a quarter and marks the segment to come as a turn.
    fn steer(&mut self, x_tri: Tri, y_tri: Tri)
        requires
            old(self)@.sound(),
        ensures
            final(self)@ == old(self)@.steered(x_tri, y_tri),
            final(self)@.sound(),
    {
        let turn: Tri = if self.horizontal { y_tri } else { x_tri };
        match turn {
            Tri::Zero => {
                let shape: BodySprites = if self.horizontal {
                    BodySprites::StraightHorizontal
                } else {
                    BodySprites::StraightVertical
                };
                self.body_type.set(0, shape);
            },
            _ => {
                let positive: bool = match turn {
                    Tri::Positive => true,
                    _ => false,
                };
                self.body_type.set(0, BodySprites::Turn);
                self.movement = self.movement.turn(turn);
                if self.horizontal {
                    self.head.kind = SpriteKind::SnakeHeadVertical;
                    self.head.vflip = positive;
                    self.head.hflip = !self.head.hflip;
                } else {
                    self.head.kind = SpriteKind::SnakeHeadHorizontal;
                    self.head.hflip = positive;
                    self.head.vflip = !self.head.vflip;
                }
                self.horizontal = !self.horizontal;
            },
        }
    }

    /// Lets every segment in use follow the one ahead of it, from the tail
    /// towards the head, so that each reads its neighbour before that
    /// neighbour moves.
    fn follow(&mut self)
        requires
            old(self)@.sound(),
        ensures
            final(self)@ == old(self)@.followed(),
    {
        let ghost before = self@;
        let mut pos: usize = self.length;
        while pos > 0
            invariant
                before.sound(),
                pos <= self.length,
                self.length == before.length,
                self.head == before.head,
                self.movement == before.movement,
                self.horizontal == before.horizontal,
                self.body@.len() == BODY_CAPACITY,
                self.body_type@.len() == BODY_CAPACITY,
                forall|i: int| 0 <= i < pos ==> self.body@[i] == before.body[i],
                forall|i: int| pos <= i < BODY_CAPACITY ==> self.body@[i] == before.moved_segment(i),
                forall|j: int| 0 <= j <= pos && j < BODY_CAPACITY ==> self.body_type@[j] == before.body_type[j],
                forall|j: int| pos < j < BODY_CAPACITY ==> self.body_type@[j] == before.moved_type(j),
            decreases pos,
        {
            pos = pos - 1;
            let shape: BodySprites = self.body_type[pos];
            if pos == 0 {
                let vflip: bool = match shape {
                    BodySprites::Turn => !self.head.vflip,
                    _ => self.head.vflip,
                };
                let moved = Sprite { kind: shape.sprite(), pos: self.head.pos, hflip: self.head.hflip, vflip };
                self.body_type.set(1, shape);
                self.body.set(0, moved);
            } else if pos == self.length - 1 {
                let own: Sprite = self.body[pos];
                let ahead: Sprite = self.body[pos - 1];
                let upright: bool = match shape {
                    BodySprites::StraightVertical => true,
                    BodySprites::StraightHorizontal => false,
                    BodySprites::Turn => {
                        let beyond: Position = if pos == 1 {
                            self.head.pos
                        } else {
                            self.body[pos - 2].pos
                        };
                        ahead.pos.x == beyond.x
                    },
                };
                let moved = if upright {
                    let vflip: bool = match shape {
                        BodySprites::Turn => !ahead.vflip,
                        _ => ahead.vflip,
                    };
                    Sprite { kind: SpriteKind::SnakeBodyEndVertical, pos: ahead.pos, hflip: !own.hflip, vflip }
                } else {
                    Sprite {
                        kind: SpriteKind::SnakeBodyEndHorizontal,
                        pos: ahead.pos,
                        hflip: ahead.hflip,
                        vflip: !own.vflip,
                    }
                };
                self.body.set(pos, moved);
            } else {
                let ahead: Sprite = self.body[pos - 1];
                let moved = Sprite { kind: shape.sprite(), pos: ahead.pos, hflip: ahead.hflip, vflip: ahead.vflip };
                self.body_type.set(pos + 1, shape);
                self.body.set(pos, moved);
            }
        }
        assert(self@.body =~= before.followed().body);
        assert(self@.body_type =~= before.followed().body_type);
    }

    /// Advances the snake by one tick. Of the two readings only that of the
    /// axis the snake does not move along counts; the other is ignored. The
    /// head turns or keeps its course, moves one step with wraparound, and
    /// every segment in use takes the place the one ahead of it had.
    pub fn tick(&mut self, x_tri: Tri, y_tri: Tri)
        requires
            old(self)@.sound(),
        ensures
            final(self)@ == old(self)@.ticked(x_tri, y_tri),
            final(self)@.sound(),
            old(self)@.wf() ==> final(self)@.wf(),
    {
        proof {
            if self@.wf() {
                self@.lemma_tick_wf(x_tri, y_tri);
            }
        }
        self.steer(x_tri, y_tri);
        let next: Position = advance(self.head.pos, self.movement);
        self.follow();
        self.head.pos = next;
    }
}

} // verus!
