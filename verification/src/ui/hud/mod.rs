//! The head-up display: a band of the window with buttons on it.

pub mod painter;

use vstd::prelude::*;
use crate::game::Sound;
use crate::types::WindowPoint;

verus! {

/// An axis-aligned rectangle of the window: `x <= px <= x + w`,
/// `y <= py <= y + h`.
#[derive(Clone, Copy, Debug, PartialEq, Eq, Structural)]
pub struct WindowRect {
    pub x: i32,
    pub y: i32,
    pub w: u32,
    pub h: u32,
}

/// What a button of the HUD asks for.
#[derive(Clone, Copy, Debug, PartialEq, Eq, Structural)]
pub enum HudEvent {
    RequestBeginBattle,
    RequestEndBattle,
}

/// A button of the HUD.
#[derive(Clone, Copy, Debug, PartialEq, Eq, Structural)]
pub struct Component {
    pub rect: WindowRect,
    pub event: Option<HudEvent>,
    pub sound: Option<Sound>,
}

/// The HUD: its band and its buttons.
#[derive(Debug)]
pub struct Hud {
    pub background: WindowRect,
    pub components: Vec<Component>,
}

/// Whether every point of a list lies in a rectangle.
pub open spec fn all_inside(rect: WindowRect, points: Seq<WindowPoint>) -> bool {
    forall|i: int| 0 <= i < points.len() ==> rect.spec_contains(#[trigger] points[i])
}

/// The first button from position `from` on that holds every point.
pub open spec fn hovered_from(components: Seq<Component>, points: Seq<WindowPoint>, from: int) -> Option<
    Component,
>
    decreases components.len() - from,
{
    if from < 0 || from >= components.len() {
        None
    } else if all_inside(components[from].rect, points) {
        Some(components[from])
    } else {
        hovered_from(components, points, from + 1)
    }
}

impl WindowRect {
    pub open spec fn spec_contains(&self, p: WindowPoint) -> bool {
        &&& self.x <= p.x <= self.x + self.w
        &&& self.y <= p.y <= self.y + self.h
    }

    /// Whether a point lies inside the rectangle, borders included.
    #[verifier::when_used_as_spec(spec_contains)]
    pub fn contains(&self, p: WindowPoint) -> (inside: bool)
        ensures
            inside == self.spec_contains(p),
    {
        (self.x as i64) <= (p.x as i64) && (p.x as i64) <= (self.x as i64) + (self.w as i64) && (
        self.y as i64) <= (p.y as i64) && (p.y as i64) <= (self.y as i64) + (self.h as i64)
    }

    /// Whether every point of a list lies inside the rectangle.
    pub fn contains_all(&self, points: &Vec<WindowPoint>) -> (inside: bool)
        ensures
            inside == all_inside(*self, points@),
    {
        let mut i: usize = 0;
        while i < points.len()
            invariant
                i <= points.len(),
                forall|j: int| 0 <= j < i ==> self.spec_contains(#[trigger] points@[j]),
            decreases points.len() - i,
        {
            if !self.contains(points[i]) {
                return false;
            }
            i += 1;
        }
        true
    }
}

impl Component {
    pub fn event(&self) -> (event: Option<HudEvent>)
        ensures
            event == self.event,
    {
        self.event
    }

    pub fn sound(&self) -> (sound: Option<Sound>)
        ensures
            sound == self.sound,
    {
        self.sound
    }
}

impl Hud {
    pub fn new(background: WindowRect, components: Vec<Component>) -> (hud: Hud)
        ensures
            hud.background == background,
            hud.components == components,
    {
        Hud { background, components }
    }

    /// Whether every point of a list is on the band of the HUD.
    pub fn contains(&self, points: &Vec<WindowPoint>) -> (inside: bool)
        ensures
            inside == all_inside(self.background, points@),
    {
        self.background.contains_all(points)
    }

    /// The button under every point of a list: the first such button.
    pub fn hovered_by(&self, points: &Vec<WindowPoint>) -> (component: Option<Component>)
        ensures
            component == hovered_from(self.components@, points@, 0),
    {
        let mut k: usize = 0;
        while k < self.components.len()
            invariant
                k <= self.components.len(),
                hovered_from(self.components@, points@, 0) == hovered_from(
                    self.components@,
                    points@,
                    k as int,
                ),
            decreases self.components.len() - k,
        {
            if self.components[k].rect.contains_all(points) {
                return Some(self.components[k]);
            }
            k += 1;
        }
        None
    }
}

} // verus!
