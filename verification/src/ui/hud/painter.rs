//! What the drawing of the HUD reads from the observer's state.

use vstd::prelude::*;
use crate::engine::state::GuiState;
use crate::types::WindowPoint;
use crate::ui::hud::Hud;

verus! {

/// The HUD together with the state of the window that it is drawn for.
pub struct HudPainter<'a> {
    pub gui_state: &'a GuiState,
    pub hud: &'a Hud,
}

impl<'a> HudPainter<'a> {
    pub fn new(hud: &'a Hud, gui_state: &'a GuiState) -> (painter: Self)
        ensures
            painter.hud == hud,
            painter.gui_state == gui_state,
    {
        Self { hud, gui_state }
    }

    /// The point that the cursor hovers.
    pub fn hover_point(&self) -> (point: &WindowPoint)
        ensures
            *point == self.gui_state@.current_cursor_window_point,
    {
        self.gui_state.get_current_cursor_window_point()
    }

    /// Whether the cursor is on the band of the HUD.
    pub fn hovered(&self) -> (inside: bool)
        ensures
            inside == self.hud.background.spec_contains(
                self.gui_state@.current_cursor_window_point,
            ),
    {
        self.hud.background.contains(*self.hover_point())
    }
}

} // verus!
