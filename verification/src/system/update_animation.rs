//! The animation of the sprites.

use vstd::prelude::*;
use crate::components::tile::Tile;
use crate::resources::animation_data_handler::AnimationDataHandler;
use crate::resources::delta_time::DeltaTime;
use crate::world::{all_have_room, records_wf, Record};

verus! {

/// Lets the frame pass on every animation, and shows its frame on the
/// sprite.
pub struct UpdateAnimation;

impl UpdateAnimation {
    /// Whether the system animates the entity: it has a sprite, an animation
    /// and a place, and faces somewhere.
    pub open spec fn animates(r: Record) -> bool {
        r.tile is Some && r.animation is Some && r.transform is Some && !(r.transform.unwrap().direction
            is Still)
    }

    /// The entity after the system has run on it: an entity that the system
    /// animates has let the frame pass on its animation, and its sprite
    /// shows the cell of the frame that the animation has come to.
    pub open spec fn updated(r: Record, dt: u16, animations: AnimationDataHandler) -> Record {
        if !Self::animates(r) {
            r
        } else {
            let set = animations.sets[r.animation.unwrap().table as int];
            let a = r.animation.unwrap().advanced(dt, set);
            Record {
                animation: Some(a),
                tile: Some(Tile { tile_index: a.cell(set), ..r.tile.unwrap() }),
                ..r
            }
        }
    }

    /// Runs the system on one entity.
    pub fn update(r: &mut Record, dt: u16, animations: &AnimationDataHandler)
        requires
            old(r).wf(*animations),
        ensures
            *final(r) == Self::updated(*old(r), dt, *animations),
            final(r).wf(*animations),
    {
        match (r.animation, r.transform) {
            (Some(a), Some(t)) => {
                if r.tile.is_some() && !t.direction.is_still() {
                    let mut a = a;
                    let set = &animations.sets[a.table];
                    a.advance(dt, set);
                    let cell = a.get_cell(set);
                    r.animation = Some(a);
                    match &mut r.tile {
                        Some(tile) => {
                            tile.tile_index = cell;
                        },
                        None => {},
                    }
                }
            },
            _ => {},
        }
    }

    /// Runs the system on every entity.
    pub fn run(&self, records: &mut Vec<Record>, dt: DeltaTime, animations: &AnimationDataHandler)
        requires
            forall|i: int| 0 <= i < old(records).len() ==> (#[trigger] old(records)[i]).wf(*animations),
        ensures
            final(records)@ == old(records)@.map_values(
                |r: Record| Self::updated(r, dt.0, *animations),
            ),
            forall|n: u64|
                records_wf(old(records)@, n, *animations) ==> records_wf(final(records)@, n, *animations),
            all_have_room(old(records)@) ==> all_have_room(final(records)@),
    {
        let count = records.len();
        let mut i: usize = 0;
        while i < count
            invariant
                0 <= i <= count,
                records.len() == count,
                old(records).len() == count,
                forall|j: int|
                    0 <= j < i ==> #[trigger] records[j] == Self::updated(old(records)[j], dt.0, *animations),
                forall|j: int| i <= j < count ==> #[trigger] records[j] == old(records)[j],
                forall|j: int| 0 <= j < count ==> (#[trigger] records[j]).wf(*animations),
            decreases count - i,
        {
            Self::update(&mut records[i], dt.0, animations);
            i += 1;
        }
        assert(records@ =~= old(records)@.map_values(
            |r: Record| Self::updated(r, dt.0, *animations),
        ));
    }
}

} // verus!
