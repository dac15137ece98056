//! Collisions: what becomes of the velocity that a body asks for, and where
//! the body ends up.

use vstd::prelude::*;
use crate::components::collider::{BodyType, Collider};
use crate::resources::animation_data_handler::AnimationDataHandler;
use crate::resources::center::Center;
use crate::units::is_step;
use crate::world::{all_have_room, records_wf, Entity, Record};

verus! {

/// Resolves the velocities of the bodies against one another and moves the
/// bodies.
pub struct UpdatePhysics;

/// Of the depth by which two bodies overlap, this part is undone per frame.
pub const PUSH_DIVISOR: i64 = 10;

/// No edge of a box lies farther than this from the origin.
pub const EDGE_MAX: i64 = 1_000_000_003_000_000_000;

/// A solid body as the resolver sees it: the entity, its box and the
/// velocity it asked for, as they were when the system began.
#[derive(Clone, Copy, Debug, PartialEq, Eq)]
pub struct ColliderData {
    pub entity: Entity,
    pub aabb: [i64; 4],
    pub velocity: [i64; 2],
    pub body_type: BodyType,
}

/// No box is wider or higher than this.
pub const SIDE_MAX: i64 = 0x1_0000_0000;

/// The edges of a box lie where sums of them and a step can be told.
pub open spec fn edges_ok(a: [i64; 4]) -> bool {
    &&& -(EDGE_MAX as int) <= a[0] <= EDGE_MAX as int
    &&& -(EDGE_MAX as int) <= a[1] <= EDGE_MAX as int
    &&& -(EDGE_MAX as int) <= a[2] <= EDGE_MAX as int
    &&& -(EDGE_MAX as int) <= a[3] <= EDGE_MAX as int
}

/// The box is not inside out, no larger than a box can be, and its edges lie
/// where the box of a body inside the world can lie.
pub open spec fn aabb_ok(a: [i64; 4]) -> bool {
    &&& -(EDGE_MAX as int) <= a[0] <= a[1] <= EDGE_MAX as int
    &&& -(EDGE_MAX as int) <= a[2] <= a[3] <= EDGE_MAX as int
    &&& a[1] - a[0] <= SIDE_MAX
    &&& a[3] - a[2] <= SIDE_MAX
}

/// Whether the box `a`, displaced by `(dx, dy)`, overlaps the box `b`. Boxes
/// that only touch do not overlap.
pub open spec fn overlap_at(a: [i64; 4], dx: int, dy: int, b: [i64; 4]) -> bool {
    a[1] + dx > b[0] && a[0] + dx < b[1] && a[2] + dy < b[3] && a[3] + dy > b[2]
}

/// How wide the overlap of two spans is.
pub open spec fn span_overlap(lo_a: int, hi_a: int, lo_b: int, hi_b: int) -> int {
    (if hi_a < hi_b {
        hi_a
    } else {
        hi_b
    }) - (if lo_a > lo_b {
        lo_a
    } else {
        lo_b
    })
}

/// Whether a span is pushed off another towards the low side: away from
/// the middle of the other; where the middles coincide, the entity with the
/// lower name goes to the low side and the other to the high side.
pub open spec fn pushed_low(lo_a: int, hi_a: int, lo_b: int, hi_b: int, a: Entity, b: Entity) -> bool {
    if lo_a + hi_a < lo_b + hi_b {
        true
    } else if lo_a + hi_a > lo_b + hi_b {
        false
    } else {
        a.0 < b.0
    }
}

/// The part of an overlap that is undone per frame: a tenth of it, rounded
/// up, so that no overlap is too small to be undone.
pub open spec fn push_amount(overlap: int) -> int {
    (overlap + PUSH_DIVISOR - 1) / PUSH_DIVISOR as int
}

/// The velocity, along one axis, of a body whose span overlaps another:
/// the body moves off the other by the part of the overlap that is undone
/// per frame, or by its own velocity `v` if that leads off the other and
/// farther.
pub open spec fn push(lo_a: int, hi_a: int, lo_b: int, hi_b: int, a: Entity, b: Entity, v: int) -> int {
    let amount = push_amount(span_overlap(lo_a, hi_a, lo_b, hi_b));
    if pushed_low(lo_a, hi_a, lo_b, hi_b, a, b) {
        if v < -amount {
            v
        } else {
            -amount
        }
    } else {
        if v > amount {
            v
        } else {
            amount
        }
    }
}

/// The velocity of a body whose box `a` overlaps the box of `other`
/// already: along the axis on which the boxes overlap less (the horizontal
/// one where they overlap alike) the body is pushed off the other; along the
/// other axis it keeps its velocity.
pub open spec fn pushed(v: (int, int), me: Entity, a: [i64; 4], other: ColliderData) -> (int, int) {
    let b = other.aabb;
    let wide = span_overlap(a[0] as int, a[1] as int, b[0] as int, b[1] as int);
    let high = span_overlap(a[2] as int, a[3] as int, b[2] as int, b[3] as int);
    if wide <= high {
        (push(a[0] as int, a[1] as int, b[0] as int, b[1] as int, me, other.entity, v.0), v.1)
    } else {
        (v.0, push(a[2] as int, a[3] as int, b[2] as int, b[3] as int, me, other.entity, v.1))
    }
}

/// The velocity of a body with the box `a` after it has been held against
/// one solid body. Nothing is held against itself. A body that overlaps the
/// other is pushed off it. Else each part of the velocity that alone would
/// carry the body into the other is set to nought.
pub open spec fn resolved_against(v: (int, int), me: Entity, a: [i64; 4], other: ColliderData) -> (
    int,
    int,
) {
    if other.entity == me {
        v
    } else if overlap_at(a, 0, 0, other.aabb) {
        pushed(v, me, a, other)
    } else {
        (
            if overlap_at(a, v.0, 0, other.aabb) {
                0
            } else {
                v.0
            },
            if overlap_at(a, 0, v.1, other.aabb) {
                0
            } else {
                v.1
            },
        )
    }
}

/// The velocity of a body after it has been held against the solid bodies
/// one after the other.
pub open spec fn resolved(v: (int, int), me: Entity, a: [i64; 4], others: Seq<ColliderData>) -> (
    int,
    int,
)
    decreases others.len(),
{
    if others.len() == 0 {
        v
    } else {
        resolved_against(resolved(v, me, a, others.drop_last()), me, a, others.last())
    }
}

/// A velocity held against a body is still a displacement that one frame
/// can produce.
pub proof fn lemma_resolved_against_is_step(v: (int, int), me: Entity, a: [i64; 4], other: ColliderData)
    requires
        is_step(v.0),
        is_step(v.1),
        aabb_ok(a),
        aabb_ok(other.aabb),
    ensures
        is_step(resolved_against(v, me, a, other).0),
        is_step(resolved_against(v, me, a, other).1),
{
    if other.entity != me && overlap_at(a, 0, 0, other.aabb) {
        let b = other.aabb;
        let wide = span_overlap(a[0] as int, a[1] as int, b[0] as int, b[1] as int);
        let high = span_overlap(a[2] as int, a[3] as int, b[2] as int, b[3] as int);
        assert(0 <= wide <= SIDE_MAX);
        assert(0 <= high <= SIDE_MAX);
        assert(0 <= push_amount(wide) <= wide + 9);
        assert(0 <= push_amount(high) <= high + 9);
    }
}

/// A free way. A body that overlaps none of the other solid bodies, and
/// that neither part of its velocity alone would carry into one of them,
/// keeps its velocity.
pub proof fn lemma_free_way(v: (int, int), me: Entity, a: [i64; 4], others: Seq<ColliderData>)
    requires
        forall|i: int|
            0 <= i < others.len() && (#[trigger] others[i]).entity != me ==> !overlap_at(a, 0, 0, others[i].aabb)
                && !overlap_at(a, v.0, 0, others[i].aabb) && !overlap_at(a, 0, v.1, others[i].aabb),
    ensures
        resolved(v, me, a, others) == v,
    decreases others.len(),
{
    if others.len() > 0 {
        let rest = others.drop_last();
        assert forall|i: int| 0 <= i < rest.len() && (#[trigger] rest[i]).entity != me implies !overlap_at(
            a,
            0,
            0,
            rest[i].aabb,
        ) && !overlap_at(a, v.0, 0, rest[i].aabb) && !overlap_at(a, 0, v.1, rest[i].aabb) by {
            assert(rest[i] == others[i]);
        }
        lemma_free_way(v, me, a, rest);
        assert(others.last() == others[others.len() - 1]);
    }
}

/// Non-penetration along one axis. A body stands clear of the only other
/// solid body. Its velocity would carry it into the other along the
/// horizontal axis alone, and not along the vertical axis alone. Then the
/// resolver sets the horizontal part to nought and keeps the vertical part.
pub proof fn lemma_blocked_horizontally(v: (int, int), me: ColliderData, other: ColliderData)
    requires
        me.entity != other.entity,
        !overlap_at(me.aabb, 0, 0, other.aabb),
        overlap_at(me.aabb, v.0, 0, other.aabb),
        !overlap_at(me.aabb, 0, v.1, other.aabb),
    ensures
        resolved(v, me.entity, me.aabb, seq![me, other]) == (0int, v.1),
        resolved(v, me.entity, me.aabb, seq![other, me]) == (0int, v.1),
{
    lemma_resolved_pair(v, me.entity, me.aabb, me, other);
    lemma_resolved_pair(v, me.entity, me.aabb, other, me);
}

/// Non-penetration along the other axis: a velocity that would carry the
/// body into the other along the vertical axis alone loses its vertical part
/// and keeps the horizontal one.
pub proof fn lemma_blocked_vertically(v: (int, int), me: ColliderData, other: ColliderData)
    requires
        me.entity != other.entity,
        !overlap_at(me.aabb, 0, 0, other.aabb),
        !overlap_at(me.aabb, v.0, 0, other.aabb),
        overlap_at(me.aabb, 0, v.1, other.aabb),
    ensures
        resolved(v, me.entity, me.aabb, seq![me, other]) == (v.0, 0int),
        resolved(v, me.entity, me.aabb, seq![other, me]) == (v.0, 0int),
{
    lemma_resolved_pair(v, me.entity, me.aabb, me, other);
    lemma_resolved_pair(v, me.entity, me.aabb, other, me);
}

/// A velocity held against two bodies is held against the first and then
/// against the second.
pub proof fn lemma_resolved_pair(v: (int, int), me: Entity, a: [i64; 4], first: ColliderData, second: ColliderData)
    ensures
        resolved(v, me, a, seq![first, second]) == resolved_against(
            resolved_against(v, me, a, first),
            me,
            a,
            second,
        ),
{
    let both = seq![first, second];
    assert(both.drop_last() == seq![first]);
    assert(seq![first].drop_last() == Seq::<ColliderData>::empty());
    assert(resolved(v, me, a, Seq::<ColliderData>::empty()) == v);
    assert(resolved(v, me, a, seq![first]) == resolved_against(v, me, a, first));
}

/// Whether the box `my_aabb`, displaced by `my_delta`, overlaps the box
/// `target_aabb`.
pub fn check_collision(my_aabb: &[i64; 4], my_delta: &[i64; 2], target_aabb: &[i64; 4]) -> (hit: bool)
    requires
        edges_ok(*my_aabb),
        is_step(my_delta[0] as int),
        is_step(my_delta[1] as int),
    ensures
        hit == overlap_at(*my_aabb, my_delta[0] as int, my_delta[1] as int, *target_aabb),
{
    let side_collision = my_aabb[1] + my_delta[0] > target_aabb[0] && my_aabb[0] + my_delta[0]
        < target_aabb[1];
    let up_down_collision = my_aabb[2] + my_delta[1] < target_aabb[3] && my_aabb[3] + my_delta[1]
        > target_aabb[2];
    side_collision && up_down_collision
}

/// The velocity, along one axis, of a body whose span overlaps another.
fn push_along(lo_a: i64, hi_a: i64, lo_b: i64, hi_b: i64, a: Entity, b: Entity, v: i64) -> (pushed: i64)
    requires
        -(EDGE_MAX as int) <= lo_a <= EDGE_MAX as int,
        -(EDGE_MAX as int) <= hi_a <= EDGE_MAX as int,
        -(EDGE_MAX as int) <= lo_b <= EDGE_MAX as int,
        -(EDGE_MAX as int) <= hi_b <= EDGE_MAX as int,
        span_overlap(lo_a as int, hi_a as int, lo_b as int, hi_b as int) >= 0,
    ensures
        pushed == push(lo_a as int, hi_a as int, lo_b as int, hi_b as int, a, b, v as int),
{
    let hi: i64 = if hi_a < hi_b {
        hi_a
    } else {
        hi_b
    };
    let lo: i64 = if lo_a > lo_b {
        lo_a
    } else {
        lo_b
    };
    let amount: i64 = (hi - lo + (PUSH_DIVISOR - 1)) / PUSH_DIVISOR;
    let towards_low = if lo_a + hi_a < lo_b + hi_b {
        true
    } else if lo_a + hi_a > lo_b + hi_b {
        false
    } else {
        a.0 < b.0
    };
    if towards_low {
        if v < -amount {
            v
        } else {
            -amount
        }
    } else {
        if v > amount {
            v
        } else {
            amount
        }
    }
}

/// The width of the overlap of two spans.
fn overlap_width(lo_a: i64, hi_a: i64, lo_b: i64, hi_b: i64) -> (w: i64)
    requires
        -(EDGE_MAX as int) <= lo_a <= EDGE_MAX as int,
        -(EDGE_MAX as int) <= hi_a <= EDGE_MAX as int,
        -(EDGE_MAX as int) <= lo_b <= EDGE_MAX as int,
        -(EDGE_MAX as int) <= hi_b <= EDGE_MAX as int,
    ensures
        w == span_overlap(lo_a as int, hi_a as int, lo_b as int, hi_b as int),
{
    let hi: i64 = if hi_a < hi_b {
        hi_a
    } else {
        hi_b
    };
    let lo: i64 = if lo_a > lo_b {
        lo_a
    } else {
        lo_b
    };
    hi - lo
}

/// Holds the velocity of a body against one solid body.
pub fn resolve_against(velocity: [i64; 2], me: Entity, aabb: &[i64; 4], other: &ColliderData) -> (v: [i64; 2])
    requires
        is_step(velocity[0] as int),
        is_step(velocity[1] as int),
        aabb_ok(*aabb),
        aabb_ok(other.aabb),
    ensures
        v[0] == resolved_against((velocity[0] as int, velocity[1] as int), me, *aabb, *other).0,
        v[1] == resolved_against((velocity[0] as int, velocity[1] as int), me, *aabb, *other).1,
        is_step(v[0] as int),
        is_step(v[1] as int),
{
    proof {
        lemma_resolved_against_is_step((velocity[0] as int, velocity[1] as int), me, *aabb, *other);
    }
    if other.entity.0 == me.0 {
        return velocity;
    }
    let b = &other.aabb;
    if check_collision(aabb, &[0, 0], b) {
        let wide = overlap_width(aabb[0], aabb[1], b[0], b[1]);
        let high = overlap_width(aabb[2], aabb[3], b[2], b[3]);
        if wide <= high {
            [push_along(aabb[0], aabb[1], b[0], b[1], me, other.entity, velocity[0]), velocity[1]]
        } else {
            [velocity[0], push_along(aabb[2], aabb[3], b[2], b[3], me, other.entity, velocity[1])]
        }
    } else {
        let x: i64 = if check_collision(aabb, &[velocity[0], 0], b) {
            0
        } else {
            velocity[0]
        };
        let y: i64 = if check_collision(aabb, &[0, velocity[1]], b) {
            0
        } else {
            velocity[1]
        };
        [x, y]
    }
}

/// Holds the velocity of a body against the solid bodies one after the
/// other.
pub fn resolve(velocity: [i64; 2], me: Entity, aabb: &[i64; 4], others: &Vec<ColliderData>) -> (v: [i64; 2])
    requires
        is_step(velocity[0] as int),
        is_step(velocity[1] as int),
        aabb_ok(*aabb),
        forall|i: int| 0 <= i < others.len() ==> aabb_ok((#[trigger] others[i]).aabb),
    ensures
        v[0] == resolved((velocity[0] as int, velocity[1] as int), me, *aabb, others@).0,
        v[1] == resolved((velocity[0] as int, velocity[1] as int), me, *aabb, others@).1,
        is_step(v[0] as int),
        is_step(v[1] as int),
{
    let mut v = velocity;
    let mut i: usize = 0;
    while i < others.len()
        invariant
            0 <= i <= others.len(),
            aabb_ok(*aabb),
            forall|j: int| 0 <= j < others.len() ==> aabb_ok((#[trigger] others[j]).aabb),
            is_step(v[0] as int),
            is_step(v[1] as int),
            v[0] == resolved((velocity[0] as int, velocity[1] as int), me, *aabb, others@.take(i as int)).0,
            v[1] == resolved((velocity[0] as int, velocity[1] as int), me, *aabb, others@.take(i as int)).1,
        decreases others.len() - i,
    {
        assert(others@.take(i + 1).drop_last() == others@.take(i as int));
        v = resolve_against(v, me, aabb, &others[i]);
        i += 1;
    }
    assert(others@.take(i as int) == others@);
    v
}

impl UpdatePhysics {
    /// Whether an entity stands in the way of others: it has a place and a
    /// body that is no trigger.
    pub open spec fn is_solid(r: Record) -> bool {
        r.transform is Some && r.collider is Some && !r.collider.unwrap().is_trigger
    }

    /// A solid entity as the resolver sees it.
    pub open spec fn data_of(r: Record) -> ColliderData {
        ColliderData {
            entity: r.entity,
            aabb: r.collider.unwrap().aabb(r.transform.unwrap().position),
            velocity: r.collider.unwrap().velocity,
            body_type: r.collider.unwrap().body_type,
        }
    }

    /// The solid entities among some, in their order.
    pub open spec fn solids(records: Seq<Record>) -> Seq<ColliderData>
        decreases records.len(),
    {
        if records.len() == 0 {
            Seq::empty()
        } else if Self::is_solid(records.last()) {
            Self::solids(records.drop_last()).push(Self::data_of(records.last()))
        } else {
            Self::solids(records.drop_last())
        }
    }

    /// The velocity with which an entity with a place and a body moves: that
    /// of its body as it is if the body is a trigger, else that velocity
    /// held against the solid bodies.
    pub open spec fn velocity_of(r: Record, others: Seq<ColliderData>) -> (int, int) {
        let c = r.collider.unwrap();
        let v = (c.velocity[0] as int, c.velocity[1] as int);
        if c.is_trigger {
            v
        } else {
            resolved(v, r.entity, c.aabb(r.transform.unwrap().position), others)
        }
    }

    /// The entity after the system has run on it, `others` being the solid
    /// bodies. An entity without a place or a body, and one with a static
    /// body, is left as it is. Any other keeps the velocity with which it
    /// moves, and is displaced by it.
    pub open spec fn moved(r: Record, others: Seq<ColliderData>) -> Record {
        if r.transform is None || r.collider is None || r.collider.unwrap().body_type is Static {
            r
        } else {
            let v = Self::velocity_of(r, others);
            Record {
                transform: Some(r.transform.unwrap().shifted(v.0, v.1)),
                collider: Some(Collider { velocity: [v.0 as i64, v.1 as i64], ..r.collider.unwrap() }),
                ..r
            }
        }
    }

    /// The centre after the system has run: where the player's character
    /// stands, if it is among the entities and has a place and a body.
    pub open spec fn center_after(records: Seq<Record>, player: Option<Entity>, center: Center) -> Center
        decreases records.len(),
    {
        if records.len() == 0 {
            center
        } else {
            let r = records.last();
            if player == Some(r.entity) && r.transform is Some && r.collider is Some {
                Center(r.transform.unwrap().position[0], r.transform.unwrap().position[1])
            } else {
                Self::center_after(records.drop_last(), player, center)
            }
        }
    }

    /// The solid bodies among the entities.
    pub fn collect(records: &Vec<Record>, animations: &AnimationDataHandler) -> (others: Vec<ColliderData>)
        requires
            forall|i: int| 0 <= i < records.len() ==> (#[trigger] records[i]).wf(*animations),
        ensures
            others@ == Self::solids(records@),
            forall|i: int| 0 <= i < others.len() ==> aabb_ok((#[trigger] others[i]).aabb),
    {
        let mut others: Vec<ColliderData> = Vec::new();
        let mut i: usize = 0;
        while i < records.len()
            invariant
                0 <= i <= records.len(),
                forall|j: int| 0 <= j < records.len() ==> (#[trigger] records[j]).wf(*animations),
                others@ == Self::solids(records@.take(i as int)),
                forall|j: int| 0 <= j < others.len() ==> aabb_ok((#[trigger] others[j]).aabb),
            decreases records.len() - i,
        {
            assert(records@.take(i + 1).drop_last() == records@.take(i as int));
            let r = &records[i];
            match (r.transform, r.collider) {
                (Some(t), Some(c)) => {
                    if !c.is_trigger {
                        others.push(
                            ColliderData {
                                entity: r.entity,
                                aabb: c.get_aabb(&t),
                                velocity: c.velocity,
                                body_type: c.body_type,
                            },
                        );
                    }
                },
                _ => {},
            }
            i += 1;
        }
        assert(records@.take(i as int) == records@);
        others
    }

    /// Runs the system on one entity, `others` being the solid bodies.
    pub fn update(r: &mut Record, others: &Vec<ColliderData>, animations: &AnimationDataHandler)
        requires
            old(r).wf(*animations),
            old(r).has_room(),
            forall|i: int| 0 <= i < others.len() ==> aabb_ok((#[trigger] others[i]).aabb),
        ensures
            *final(r) == Self::moved(*old(r), others@),
            final(r).wf(*animations),
    {
        match (r.transform, r.collider) {
            (Some(t), Some(c)) => {
                match c.body_type {
                    BodyType::Static => {},
                    _ => {
                        let mut t = t;
                        let mut c = c;
                        let v = if c.is_trigger {
                            c.velocity
                        } else {
                            let aabb = c.get_aabb(&t);
                            resolve(c.velocity, r.entity, &aabb, others)
                        };
                        t.translate(v);
                        c.velocity = v;
                        r.transform = Some(t);
                        r.collider = Some(c);
                        proof {
                            let m = Self::moved(*old(r), others@);
                            assert(c.velocity =~= m.collider.unwrap().velocity);
                        }
                    },
                }
            },
            _ => {},
        }
    }

    /// Runs the system on every entity. The velocities are held against the
    /// solid bodies as they stood before any entity moved, so that no
    /// entity's move depends on the order in which the entities move.
    pub fn run(
        &self,
        records: &mut Vec<Record>,
        player: Option<Entity>,
        center: &mut Center,
        animations: &AnimationDataHandler,
    )
        requires
            forall|i: int| 0 <= i < old(records).len() ==> (#[trigger] old(records)[i]).wf(*animations),
            all_have_room(old(records)@),
            old(center).wf(),
        ensures
            final(records)@ == old(records)@.map_values(
                |r: Record| Self::moved(r, Self::solids(old(records)@)),
            ),
            *final(center) == Self::center_after(final(records)@, player, *old(center)),
            final(center).wf(),
            forall|n: u64|
                records_wf(old(records)@, n, *animations) ==> records_wf(final(records)@, n, *animations),
    {
        let others = Self::collect(records, animations);
        let count = records.len();
        let mut i: usize = 0;
        while i < count
            invariant
                0 <= i <= count,
                records.len() == count,
                old(records).len() == count,
                others@ == Self::solids(old(records)@),
                forall|j: int| 0 <= j < others.len() ==> aabb_ok((#[trigger] others[j]).aabb),
                forall|j: int| 0 <= j < i ==> #[trigger] records[j] == Self::moved(old(records)[j], others@),
                forall|j: int| i <= j < count ==> #[trigger] records[j] == old(records)[j],
                forall|j: int| 0 <= j < count ==> (#[trigger] records[j]).wf(*animations),
                all_have_room(old(records)@),
                *center == Self::center_after(records@.take(i as int), player, *old(center)),
                center.wf(),
            decreases count - i,
        {
            let ghost before = records@;
            Self::update(&mut records[i], &others, animations);
            let r = &records[i];
            assert(records@.take(i as int) =~= before.take(i as int));
            assert(records@.take(i + 1).drop_last() =~= records@.take(i as int));
            match (player, r.transform, r.collider) {
                (Some(p), Some(t), Some(_)) => {
                    if p.0 == r.entity.0 {
                        *center = Center(t.position[0], t.position[1]);
                    }
                },
                _ => {},
            }
            i += 1;
        }
        assert(records@.take(i as int) == records@);
        assert(records@ =~= old(records)@.map_values(
            |r: Record| Self::moved(r, Self::solids(old(records)@)),
        ));
    }
}

} // verus!
