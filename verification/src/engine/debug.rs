//! Notes that the observer shows beside the scene while it is inspected.

use vstd::prelude::*;
use crate::types::{SoldierIndex, WorldPoint};

verus! {

/// A note to show at a point of the scene: the frame at which it was made,
/// the point, the text, and the soldier that it is about, if any.
#[derive(Debug)]
pub struct DebugText {
    pub frame_i: u64,
    pub scene_point: WorldPoint,
    pub message: String,
    pub scene_item_id: Option<SoldierIndex>,
}

/// Mathematical value of a [`DebugText`].
pub struct DebugTextView {
    pub frame_i: u64,
    pub scene_point: WorldPoint,
    pub message: Seq<char>,
    pub scene_item_id: Option<SoldierIndex>,
}

impl View for DebugText {
    type V = DebugTextView;

    open spec fn view(&self) -> DebugTextView {
        DebugTextView {
            frame_i: self.frame_i,
            scene_point: self.scene_point,
            message: self.message@,
            scene_item_id: self.scene_item_id,
        }
    }
}

impl DebugText {
    pub fn new(frame_i: u64, scene_point: WorldPoint, message: String, scene_item_id: Option<SoldierIndex>) -> (text:
        DebugText)
        ensures
            text@ == (DebugTextView { frame_i, scene_point, message: message@, scene_item_id }),
    {
        DebugText { frame_i, scene_point, message, scene_item_id }
    }
}

impl Clone for DebugText {
    fn clone(&self) -> (copy: DebugText)
        ensures
            copy@ == self@,
    {
        DebugText {
            frame_i: self.frame_i,
            scene_point: self.scene_point,
            message: self.message.clone(),
            scene_item_id: self.scene_item_id,
        }
    }
}

} // verus!
