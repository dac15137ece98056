//! The life of the projectiles.

use vstd::prelude::*;
use crate::components::collider::Collider;
use crate::resources::animation_data_handler::AnimationDataHandler;
use crate::resources::delta_time::DeltaTime;
use crate::world::{all_have_room, records_wf, Record};

verus! {

/// Lets the frame pass on every projectile, gives the living their velocity
/// and removes the dead.
pub struct UpdateAttack;

impl UpdateAttack {
    /// Whether the system steers the entity: it is a projectile with a body.
    pub open spec fn steers(r: Record) -> bool {
        r.attack is Some && r.collider is Some
    }

    /// The entity after the frame has passed on it: a projectile has lived
    /// for the frame, and, if it is not dead by now, has the velocity of its
    /// flight.
    pub open spec fn aged(r: Record, dt: u16) -> Record {
        if !Self::steers(r) {
            r
        } else {
            let a = r.attack.unwrap().aged(dt);
            if a.expired() {
                Record { attack: Some(a), ..r }
            } else {
                Record {
                    attack: Some(a),
                    collider: Some(
                        Collider { velocity: [a.step(dt).0 as i64, a.step(dt).1 as i64], ..r.collider.unwrap() },
                    ),
                    ..r
                }
            }
        }
    }

    /// Whether the entity is a dead projectile.
    pub open spec fn dead(r: Record) -> bool {
        Self::steers(r) && r.attack.unwrap().expired()
    }

    /// The entities without the dead projectiles, in their order.
    pub open spec fn survivors(records: Seq<Record>) -> Seq<Record>
        decreases records.len(),
    {
        if records.len() == 0 {
            Seq::empty()
        } else if Self::dead(records[0]) {
            Self::survivors(records.skip(1))
        } else {
            seq![records[0]] + Self::survivors(records.skip(1))
        }
    }

    /// The survivors are well formed where the entities are, and none of
    /// them comes before the first of the entities.
    pub proof fn lemma_survivors_wf(records: Seq<Record>, n: u64, animations: AnimationDataHandler)
        requires
            records_wf(records, n, animations),
        ensures
            records_wf(Self::survivors(records), n, animations),
            Self::survivors(records).len() > 0 ==> Self::survivors(records)[0].entity.0
                >= records[0].entity.0,
        decreases records.len(),
    {
        if records.len() > 0 {
            let rest = records.skip(1);
            assert forall|i: int| 0 <= i < rest.len() implies #[trigger] rest[i] == records[i + 1] by {}
            assert(records_wf(rest, n, animations));
            Self::lemma_survivors_wf(rest, n, animations);
            let kept = Self::survivors(rest);
            if kept.len() > 0 {
                assert(rest[0] == records[1]);
            }
            if !Self::dead(records[0]) {
                let all = seq![records[0]] + kept;
                assert forall|i: int| 0 <= i < all.len() implies (#[trigger] all[i]).wf(animations)
                    && all[i].entity.0 < n by {
                    if i > 0 {
                        assert(all[i] == kept[i - 1]);
                    }
                }
                assert forall|i: int, j: int| 0 <= i < j < all.len() implies (#[trigger] all[i]).entity.0 < (
                #[trigger] all[j]).entity.0 by {
                    assert(all[j] == kept[j - 1]);
                    if i > 0 {
                        assert(all[i] == kept[i - 1]);
                    } else if j > 1 {
                        assert(kept[0].entity.0 < kept[j - 1].entity.0);
                    }
                }
            }
        }
    }

    /// Lets the frame pass on one entity.
    pub fn update(r: &mut Record, dt: u16, animations: &AnimationDataHandler)
        requires
            old(r).wf(*animations),
        ensures
            *final(r) == Self::aged(*old(r), dt),
            final(r).wf(*animations),
    {
        match (r.attack, r.collider) {
            (Some(a), Some(c)) => {
                let mut a = a;
                let mut c = c;
                if !a.advance(dt) {
                    c.velocity = a.velocity(dt);
                    proof {
                        assert(c.velocity =~= Self::aged(*old(r), dt).collider.unwrap().velocity);
                    }
                }
                r.attack = Some(a);
                r.collider = Some(c);
            },
            _ => {},
        }
    }

    /// Whether the entity is a dead projectile.
    pub fn is_dead(r: &Record) -> (dead: bool)
        ensures
            dead == Self::dead(*r),
    {
        match (r.attack, r.collider) {
            (Some(a), Some(_)) => a.is_expired(),
            _ => false,
        }
    }

    /// Runs the system. The frame passes on every entity first; only then
    /// are the dead projectiles taken out, so that no entity is passed over
    /// because another left.
    pub fn run(&self, records: &mut Vec<Record>, dt: DeltaTime, animations: &AnimationDataHandler)
        requires
            forall|i: int| 0 <= i < old(records).len() ==> (#[trigger] old(records)[i]).wf(*animations),
        ensures
            final(records)@ == Self::survivors(
                old(records)@.map_values(|r: Record| Self::aged(r, dt.0)),
            ),
            forall|n: u64|
                records_wf(old(records)@, n, *animations) ==> records_wf(final(records)@, n, *animations),
            all_have_room(old(records)@) ==> all_have_room(final(records)@),
    {
        let count = records.len();
        let mut i: usize = 0;
        while i < count
            invariant
                0 <= i <= count,
                records.len() == count,
                old(records).len() == count,
                forall|j: int| 0 <= j < i ==> #[trigger] records[j] == Self::aged(old(records)[j], dt.0),
                forall|j: int| i <= j < count ==> #[trigger] records[j] == old(records)[j],
                forall|j: int| 0 <= j < count ==> (#[trigger] records[j]).wf(*animations),
            decreases count - i,
        {
            Self::update(&mut records[i], dt.0, animations);
            i += 1;
        }
        let ghost aged = records@;
        assert(aged =~= old(records)@.map_values(|r: Record| Self::aged(r, dt.0)));
        let mut k: usize = count;
        assert(aged.skip(k as int) =~= Seq::<Record>::empty());
        while k > 0
            invariant
                0 <= k <= count,
                aged.len() == count,
                records@ == aged.take(k as int) + Self::survivors(aged.skip(k as int)),
            decreases k,
        {
            k -= 1;
            assert(aged.skip(k as int).skip(1) =~= aged.skip(k + 1));
            assert(aged.skip(k as int)[0] == aged[k as int]);
            assert(records@[k as int] == aged[k as int]);
            if Self::is_dead(&records[k]) {
                let _ = records.remove(k);
                assert(records@ =~= aged.take(k as int) + Self::survivors(aged.skip(k as int)));
            } else {
                assert(records@ =~= aged.take(k as int) + Self::survivors(aged.skip(k as int)));
            }
        }
        assert(aged.skip(0) =~= aged);
        assert(records@ =~= Self::survivors(aged));
        proof {
            assert forall|n: u64| records_wf(old(records)@, n, *animations) implies records_wf(
                records@,
                n,
                *animations,
            ) by {
                assert(records_wf(aged, n, *animations));
                Self::lemma_survivors_wf(aged, n, *animations);
            }
            if all_have_room(old(records)@) {
                assert forall|j: int| 0 <= j < aged.len() implies (#[trigger] aged[j]).has_room() by {
                    assert(old(records)@[j].has_room());
                }
                Self::lemma_survivors_room(aged);
            }
        }
    }

    /// The survivors have room where the entities have.
    pub proof fn lemma_survivors_room(records: Seq<Record>)
        requires
            all_have_room(records),
        ensures
            all_have_room(Self::survivors(records)),
        decreases records.len(),
    {
        if records.len() > 0 {
            let rest = records.skip(1);
            assert forall|i: int| 0 <= i < rest.len() implies #[trigger] rest[i] == records[i + 1] by {}
            assert(all_have_room(rest));
            Self::lemma_survivors_room(rest);
            let kept = Self::survivors(rest);
            if !Self::dead(records[0]) {
                let all = seq![records[0]] + kept;
                assert forall|i: int| 0 <= i < all.len() implies (#[trigger] all[i]).has_room() by {
                    if i > 0 {
                        assert(all[i] == kept[i - 1]);
                    }
                }
            }
        }
    }
}

} // verus!
