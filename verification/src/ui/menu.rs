//! The menu that opens on a squad: a column of orders to prepare.

use vstd::prelude::*;
use crate::order::pending::{PendingOrder, PendingOrderView};
use crate::types::{SquadUuid, WindowPoint};

verus! {

/// Width of the menu, in pixels.
pub const MENU_WIDTH: i32 = 71;

/// Height of one item of the menu, in pixels.
pub const MENU_ITEM_HEIGHT: i32 = 17;

/// Height of the menu, in pixels: six items.
pub const MENU_HEIGHT: i32 = 102;

/// An item of the menu, from top to bottom.
#[derive(Clone, Copy, Debug, PartialEq, Eq, Structural)]
pub enum MenuItem {
    MoveTo,
    MoveFastTo,
    SneakTo,
    Defend,
    Hide,
    EngageOrFire,
}

/// The item of rank `k` from the top.
pub open spec fn menu_item(k: int) -> MenuItem {
    if k <= 0 {
        MenuItem::MoveTo
    } else if k == 1 {
        MenuItem::MoveFastTo
    } else if k == 2 {
        MenuItem::SneakTo
    } else if k == 3 {
        MenuItem::Defend
    } else if k == 4 {
        MenuItem::Hide
    } else {
        MenuItem::EngageOrFire
    }
}

/// The item under a click, for a menu whose top left corner is at
/// `menu_point`; none for a click beside the menu.
pub open spec fn menu_item_at(menu_point: WindowPoint, click: WindowPoint) -> Option<MenuItem> {
    let dx = click.x - menu_point.x;
    let dy = click.y - menu_point.y;
    if 0 <= dx < MENU_WIDTH && 0 <= dy < MENU_HEIGHT {
        Some(menu_item(dy / (MENU_ITEM_HEIGHT as int)))
    } else {
        None
    }
}

/// The order that an item of the menu starts to prepare for a squad.
pub open spec fn pending_from_menu(item: MenuItem, squad: SquadUuid) -> PendingOrderView {
    match item {
        MenuItem::MoveTo => PendingOrderView::MoveTo(squad, None, Seq::empty()),
        MenuItem::MoveFastTo => PendingOrderView::MoveFastTo(squad, None, Seq::empty()),
        MenuItem::SneakTo => PendingOrderView::SneakTo(squad, None, Seq::empty()),
        MenuItem::Defend => PendingOrderView::Defend(squad),
        MenuItem::Hide => PendingOrderView::Hide(squad),
        MenuItem::EngageOrFire => PendingOrderView::EngageOrFire(squad),
    }
}

/// The item under a click.
pub fn which_item_clicked(menu_point: WindowPoint, click: WindowPoint) -> (item: Option<MenuItem>)
    ensures
        item == menu_item_at(menu_point, click),
{
    let dx: i64 = click.x as i64 - menu_point.x as i64;
    let dy: i64 = click.y as i64 - menu_point.y as i64;
    if 0 <= dx && dx < MENU_WIDTH as i64 && 0 <= dy && dy < MENU_HEIGHT as i64 {
        let k: i64 = dy / (MENU_ITEM_HEIGHT as i64);
        Some(
            if k == 0 {
                MenuItem::MoveTo
            } else if k == 1 {
                MenuItem::MoveFastTo
            } else if k == 2 {
                MenuItem::SneakTo
            } else if k == 3 {
                MenuItem::Defend
            } else if k == 4 {
                MenuItem::Hide
            } else {
                MenuItem::EngageOrFire
            },
        )
    } else {
        None
    }
}

impl MenuItem {
    /// The order that the item starts to prepare for a squad.
    pub fn pending_order(&self, squad: SquadUuid) -> (order: PendingOrder)
        ensures
            order@ == pending_from_menu(*self, squad),
    {
        match self {
            MenuItem::MoveTo => PendingOrder::MoveTo(squad, None, Vec::new()),
            MenuItem::MoveFastTo => PendingOrder::MoveFastTo(squad, None, Vec::new()),
            MenuItem::SneakTo => PendingOrder::SneakTo(squad, None, Vec::new()),
            MenuItem::Defend => PendingOrder::Defend(squad),
            MenuItem::Hide => PendingOrder::Hide(squad),
            MenuItem::EngageOrFire => PendingOrder::EngageOrFire(squad),
        }
    }
}

} // verus!
