//! One frame of the game loop.
//!
//! A frame consumes the pending intent, moves the piece by it, writes the
//! piece into the grid, lists what to draw and leaves the mailbox empty.
//! Clearing the screen before, drawing the list and sleeping until the next
//! frame are the caller's part.

use vstd::prelude::*;
use crate::grid::{Grid, GridError};
use crate::intent::InputIntent;
use crate::materialize::{fits, materialize, materialized};
use crate::piece::Piece;
use crate::render::{draw, draw_list, DrawCommand};

verus! {

/// The time from one frame to the next, in milliseconds.
pub const FRAME_INTERVAL_MS: u64 = 500;

/// What a frame hands to the caller.
#[derive(Debug)]
pub struct Frame {
    /// What to draw, in order.
    pub commands: Vec<DrawCommand>,
    /// `Err(OutOfBounds)` if part of the piece lay outside the grid and was
    /// not written.
    pub outcome: Result<(), GridError>,
}

/// Runs one frame on the shared state.
///
/// The piece moves by the pending intent, if any. The moved piece is written
/// into the grid. The commands draw the grid as it then stands. The mailbox
/// is `Neutral` afterwards, whatever it held.
pub fn advance(grid: &mut Grid, piece: &mut Piece, intent: &mut InputIntent) -> (frame: Frame)
    requires
        old(piece)@.moved(*old(intent)).representable(),
    ensures
        final(piece)@ == old(piece)@.moved(*old(intent)),
        final(grid)@ == materialized(old(grid)@, final(piece)@),
        final(grid)@.wf(),
        frame.commands@ == draw_list(final(grid)@),
        frame.outcome == if fits(old(grid)@, final(piece)@) {
            Ok::<(), GridError>(())
        } else {
            Err::<(), GridError>(GridError::OutOfBounds)
        },
        *final(intent) == InputIntent::Neutral,
{
    piece.apply_intent(*intent);
    let outcome = materialize(grid, piece);
    let commands = draw(grid);
    *intent = InputIntent::Neutral;
    Frame { commands, outcome }
}

} // verus!
