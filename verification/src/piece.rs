//! The falling piece and the two things that move it: the player's intent and
//! gravity.

use vstd::prelude::*;
use crate::cell::Color;
use crate::intent::InputIntent;

verus! {

/// The time from one gravity tick to the next, in milliseconds.
pub const GRAVITY_INTERVAL_MS: u64 = 1000;

/// The tetromino shapes.
#[derive(Clone, Copy, Debug, PartialEq, Eq, Structural)]
pub enum Shape {
    I,
    L,
    O,
    S,
    T,
}

/// The active piece. `(x, y)` is its anchor in grid coordinates: the column
/// and the row of its top cell. Rows grow downwards. The anchor is free to
/// leave the grid; nothing here reads the grid's dimensions.
#[derive(Clone, Copy, Debug, PartialEq, Eq, Structural)]
pub struct Piece {
    pub shape: Shape,
    pub color: Color,
    pub rotation: usize,
    pub x: i64,
    pub y: i64,
}

/// A piece with its anchor as mathematical integers.
pub struct PieceView {
    pub shape: Shape,
    pub color: Color,
    pub rotation: nat,
    pub x: int,
    pub y: int,
}

impl PieceView {
    /// The piece after `intent` was applied: the anchor displaced by one
    /// cell in the direction asked for, everything else as before.
    pub open spec fn moved(self, intent: InputIntent) -> PieceView {
        PieceView {
            shape: self.shape,
            color: self.color,
            rotation: self.rotation,
            x: self.x + intent.dx(),
            y: self.y + intent.dy(),
        }
    }

    /// The piece after one gravity tick: one row further down.
    pub open spec fn fallen(self) -> PieceView {
        PieceView {
            shape: self.shape,
            color: self.color,
            rotation: self.rotation,
            x: self.x,
            y: self.y + 1,
        }
    }

    /// Whether the anchor can be held in the piece's machine integers.
    pub open spec fn representable(self) -> bool {
        i64::MIN <= self.x <= i64::MAX && i64::MIN <= self.y <= i64::MAX
    }
}

/// What each intent does to a piece: `Left` and `Right` move the anchor one
/// column, `Down` one row, `Up` and `Neutral` nothing; shape, color and
/// rotation never change.
pub proof fn lemma_moved_by_intent(piece: PieceView, intent: InputIntent)
    ensures
        intent == InputIntent::Left ==> piece.moved(intent).x == piece.x - 1 && piece.moved(intent).y
            == piece.y,
        intent == InputIntent::Right ==> piece.moved(intent).x == piece.x + 1 && piece.moved(intent).y
            == piece.y,
        intent == InputIntent::Down ==> piece.moved(intent).x == piece.x && piece.moved(intent).y
            == piece.y + 1,
        intent == InputIntent::Up || intent == InputIntent::Neutral ==> piece.moved(intent) == piece,
        piece.moved(intent).shape == piece.shape,
        piece.moved(intent).color == piece.color,
        piece.moved(intent).rotation == piece.rotation,
{
}

/// A gravity tick adds exactly one to the row whatever the player does
/// around it: ticking before or after an intent is applied gives the same
/// piece, one row below where the intent alone would have left it.
pub proof fn lemma_gravity_independent_of_intent(piece: PieceView, intent: InputIntent)
    ensures
        piece.fallen().y == piece.y + 1,
        piece.fallen().x == piece.x,
        piece.moved(intent).fallen() == piece.fallen().moved(intent),
        piece.moved(intent).fallen().y == piece.moved(intent).y + 1,
{
}

impl View for Piece {
    type V = PieceView;

    open spec fn view(&self) -> PieceView {
        PieceView {
            shape: self.shape,
            color: self.color,
            rotation: self.rotation as nat,
            x: self.x as int,
            y: self.y as int,
        }
    }
}

impl Piece {
    /// The piece a game starts with: a red `I` in column 5 at the top row.
    pub fn starting() -> (piece: Piece)
        ensures
            piece@ == (PieceView { shape: Shape::I, color: Color::Red, rotation: 0, x: 5, y: 0 }),
    {
        Piece { shape: Shape::I, color: Color::Red, rotation: 0, x: 5, y: 0 }
    }

    /// Whether `apply_intent` may be called with `intent`: the displaced
    /// anchor still fits the machine integers.
    pub fn can_apply(&self, intent: InputIntent) -> (fits: bool)
        ensures
            fits == self@.moved(intent).representable(),
    {
        match intent {
            InputIntent::Left => self.x > i64::MIN,
            InputIntent::Right => self.x < i64::MAX,
            InputIntent::Down => self.y < i64::MAX,
            _ => true,
        }
    }

    /// Applies the player's intent: `Left` and `Right` move the anchor one
    /// column, `Down` one row; `Up` and `Neutral` leave the piece as it is.
    pub fn apply_intent(&mut self, intent: InputIntent)
        requires
            old(self)@.moved(intent).representable(),
        ensures
            final(self)@ == old(self)@.moved(intent),
    {
        match intent {
            InputIntent::Left => {
                self.x = self.x - 1;
            },
            InputIntent::Right => {
                self.x = self.x + 1;
            },
            InputIntent::Down => {
                self.y = self.y + 1;
            },
            _ => {},
        }
    }

    /// Whether `gravity_tick` may be called: the next row still fits the
    /// machine integers.
    pub fn can_fall(&self) -> (fits: bool)
        ensures
            fits == self@.fallen().representable(),
    {
        self.y < i64::MAX
    }

    /// One gravity tick: the anchor drops by exactly one row. The grid is not
    /// consulted.
    pub fn gravity_tick(&mut self)
        requires
            old(self)@.fallen().representable(),
        ensures
            final(self)@ == old(self)@.fallen(),
    {
        self.y = self.y + 1;
    }
}

} // verus!
