//! Discrete events that the cursor's gestures amount to.

use vstd::prelude::*;
use crate::types::{SquadUuid, WindowPoint, WorldPoint};

verus! {

/// What the player just did with the cursor.
#[derive(Clone, Copy, Debug, PartialEq, Eq, Structural)]
pub enum UIEvent {
    /// The cursor has not moved for that many frames.
    ImmobileCursorSince(u64),
    CursorMove(WindowPoint),
    /// A drag from the first point to the second came to its end.
    FinishedCursorVector(WindowPoint, WindowPoint),
    FinishedCursorLeftClick(WindowPoint),
    FinishedCursorRightClick(WindowPoint),
    /// A squad was dragged to a place, during placement.
    DropSquadTo(SquadUuid, WorldPoint),
    /// The route of the order under preparation is to be shown.
    DrawMovePaths,
}

} // verus!
