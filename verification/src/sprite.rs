//! The sprite catalogue and the placed sprites that make up a frame.

use crate::grid::Position;
use vstd::prelude::*;

verus! {

/// The images of the sprite sheet. One turn image serves all four corners
/// through the two flips.
#[derive(Clone, Copy, Debug, PartialEq, Eq, Structural)]
pub enum SpriteKind {
    SnakeHeadVertical,
    SnakeHeadHorizontal,
    SnakeBodyStraightVertical,
    SnakeBodyStraightHorizontal,
    SnakeBodyTurn,
    SnakeBodyEndVertical,
    SnakeBodyEndHorizontal,
    Apple,
    Banana,
    Cherry,
    Kiwi,
    Orange,
    Lemon,
}

/// The shape of a body segment: straight along one axis, or a corner.
#[derive(Clone, Copy, Debug, PartialEq, Eq, Structural)]
pub enum BodySprites {
    StraightVertical,
    StraightHorizontal,
    Turn,
}

/// One sprite as the display shows it: an image, where it stands, and
/// whether it is mirrored along either axis.
#[derive(Clone, Copy, Debug, PartialEq, Eq, Structural)]
pub struct Sprite {
    pub kind: SpriteKind,
    pub pos: Position,
    pub hflip: bool,
    pub vflip: bool,
}

/// Number of fruit images in the catalogue.
pub const FRUIT_KINDS: i32 = 6;

impl BodySprites {
    /// The image of a body segment of this shape that is not the tail.
    pub open spec fn image(self) -> SpriteKind {
        match self {
            BodySprites::StraightVertical => SpriteKind::SnakeBodyStraightVertical,
            BodySprites::StraightHorizontal => SpriteKind::SnakeBodyStraightHorizontal,
            BodySprites::Turn => SpriteKind::SnakeBodyTurn,
        }
    }

    /// The image of a body segment of this shape that is not the tail.
    pub fn sprite(self) -> (kind: SpriteKind)
        ensures
            kind == self.image(),
    {
        match self {
            BodySprites::StraightVertical => SpriteKind::SnakeBodyStraightVertical,
            BodySprites::StraightHorizontal => SpriteKind::SnakeBodyStraightHorizontal,
            BodySprites::Turn => SpriteKind::SnakeBodyTurn,
        }
    }

    /// The shape of a segment that the head leaves behind while it keeps to
    /// its axis.
    pub open spec fn straight(horizontal: bool) -> BodySprites {
        if horizontal {
            BodySprites::StraightHorizontal
        } else {
            BodySprites::StraightVertical
        }
    }
}

impl SpriteKind {
    /// The head image for the axis the snake moves along.
    pub open spec fn head(horizontal: bool) -> SpriteKind {
        if horizontal {
            SpriteKind::SnakeHeadHorizontal
        } else {
            SpriteKind::SnakeHeadVertical
        }
    }

    /// The fruit image at a place of the catalogue, counted from zero.
    pub open spec fn fruit_at(index: int) -> SpriteKind {
        if index == 0 {
            SpriteKind::Apple
        } else if index == 1 {
            SpriteKind::Banana
        } else if index == 2 {
            SpriteKind::Cherry
        } else if index == 3 {
            SpriteKind::Kiwi
        } else if index == 4 {
            SpriteKind::Orange
        } else {
            SpriteKind::Lemon
        }
    }

    /// Whether this is one of the six fruit images.
    pub open spec fn is_fruit(self) -> bool {
        exists|index: int| 0 <= index < FRUIT_KINDS && self == #[trigger] SpriteKind::fruit_at(index)
    }

    /// The fruit image at a place of the catalogue, counted from zero.
    pub fn fruit(index: i32) -> (kind: SpriteKind)
        requires
            0 <= index < FRUIT_KINDS,
        ensures
            kind == SpriteKind::fruit_at(index as int),
            kind.is_fruit(),
    {
        if index == 0 {
            SpriteKind::Apple
        } else if index == 1 {
            SpriteKind::Banana
        } else if index == 2 {
            SpriteKind::Cherry
        } else if index == 3 {
            SpriteKind::Kiwi
        } else if index == 4 {
            SpriteKind::Orange
        } else {
            SpriteKind::Lemon
        }
    }
}

impl Sprite {
    /// A sprite as the display first makes it: at the origin, unmirrored.
    pub open spec fn fresh(kind: SpriteKind) -> Sprite {
        Sprite { kind, pos: Position { x: 0, y: 0 }, hflip: false, vflip: false }
    }

    /// A sprite with the given image at the origin, unmirrored.
    pub fn new(kind: SpriteKind) -> (sprite: Sprite)
        ensures
            sprite == Sprite::fresh(kind),
    {
        Sprite { kind, pos: Position { x: 0, y: 0 }, hflip: false, vflip: false }
    }
}

} // verus!
