//! A fixed line-up of soldiers to try things out on.

use vstd::prelude::*;
use crate::entity::soldier::Soldier;
use crate::game::Side;
use crate::types::{SoldierIndex, SquadUuid, WorldPoint};

verus! {

/// Where the soldier of rank `i` of the line-up stands: ten rows of ten,
/// ten metres apart.
pub open spec fn line_up_place(i: int) -> WorldPoint {
    WorldPoint { x: ((i / 10) * 10000) as i32, y: ((i % 10) * 10000) as i32 }
}

/// A hundred soldiers of side A in ten rows of ten, ten metres apart, each
/// alone in the squad of its own rank.
pub fn get_entities() -> (entities: Vec<Soldier>)
    ensures
        entities@.len() == 100,
        forall|i: int|
            0 <= i < 100 ==> {
                &&& (#[trigger] entities@[i])@.uuid == SoldierIndex(i as usize)
                &&& entities@[i]@.squad_uuid == SquadUuid(i as usize)
                &&& entities@[i]@.side == Side::A
                &&& entities@[i]@.world_point == line_up_place(i)
                &&& entities@[i].wf()
            },
{
    let mut entities: Vec<Soldier> = Vec::new();
    let mut x: usize = 0;
    while x < 10
        invariant
            x <= 10,
            entities@.len() == x * 10,
            forall|i: int|
                0 <= i < x * 10 ==> {
                    &&& (#[trigger] entities@[i])@.uuid == SoldierIndex(i as usize)
                    &&& entities@[i]@.squad_uuid == SquadUuid(i as usize)
                    &&& entities@[i]@.side == Side::A
                    &&& entities@[i]@.world_point == line_up_place(i)
                    &&& entities@[i].wf()
                },
        decreases 10 - x,
    {
        let mut y: usize = 0;
        while y < 10
            invariant
                x < 10,
                y <= 10,
                entities@.len() == x * 10 + y,
                forall|i: int|
                    0 <= i < x * 10 + y ==> {
                        &&& (#[trigger] entities@[i])@.uuid == SoldierIndex(i as usize)
                        &&& entities@[i]@.squad_uuid == SquadUuid(i as usize)
                        &&& entities@[i]@.side == Side::A
                        &&& entities@[i]@.world_point == line_up_place(i)
                        &&& entities@[i].wf()
                    },
            decreases 10 - y,
        {
            // One soldier to a squad.
            let rank: usize = x * 10 + y;
            let squad = SquadUuid(rank);
            let entity = Soldier::new(
                SoldierIndex(rank),
                Side::A,
                squad,
                WorldPoint::new((x * 10000) as i32, (y * 10000) as i32),
            );
            assert(line_up_place(rank as int) == WorldPoint {
                x: (x * 10000) as i32,
                y: (y * 10000) as i32,
            }) by {
                assert((x * 10 + y) / 10 == x && (x * 10 + y) % 10 == y) by (nonlinear_arith)
                    requires
                        0 <= y < 10,
                        0 <= x,
                ;
            }
            entities.push(entity);
            y += 1;
        }
        x += 1;
    }
    entities
}

} // verus!
