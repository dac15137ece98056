//! The kinds of enemies, and the clock by which enemies appear.

use vstd::prelude::*;
use crate::components::animation::Animation;
use crate::components::tile::Tile;
use crate::resources::animation_data_handler::AnimationDataHandler;
use crate::world::ENEMY_SEQUENCE_ATTACK;

verus! {

/// A kind of enemy: its name, the sprite and the animation with which it
/// appears, its size in sub-units and its speed in sub-units per
/// millisecond.
#[derive(Debug, PartialEq, Eq)]
pub struct EnemyTemplate {
    pub name: String,
    pub tile: Tile,
    pub animations: Animation,
    pub size: [i64; 2],
    pub speed: u32,
}

impl EnemyTemplate {
    /// An enemy of the kind can move, and its animation faces down, as an
    /// enemy does when it appears, and has the sequences that an enemy
    /// plays.
    pub open spec fn wf(self, animations: AnimationDataHandler) -> bool {
        &&& self.speed >= 1
        &&& self.animations.facing is Down
        &&& self.animations.table < animations.sets.len()
        &&& self.animations.wf(animations.sets[self.animations.table as int])
        &&& animations.sets[self.animations.table as int].sequences.len() > ENEMY_SEQUENCE_ATTACK
    }
}

/// The place of the first kind of a name among some kinds, if there is one.
pub open spec fn first_named(kinds: Seq<EnemyTemplate>, name: Seq<char>) -> Option<int>
    decreases kinds.len(),
{
    if kinds.len() == 0 {
        None
    } else {
        match first_named(kinds.drop_last(), name) {
            Some(i) => Some(i),
            None => if kinds.last().name@ == name {
                Some(kinds.len() - 1)
            } else {
                None
            },
        }
    }
}

/// What `first_named` finds is the place of a kind of the name.
pub proof fn lemma_first_named(kinds: Seq<EnemyTemplate>, name: Seq<char>)
    ensures
        match first_named(kinds, name) {
            Some(i) => 0 <= i < kinds.len() && kinds[i].name@ == name && forall|j: int|
                0 <= j < i ==> (#[trigger] kinds[j]).name@ != name,
            None => forall|j: int| 0 <= j < kinds.len() ==> (#[trigger] kinds[j]).name@ != name,
        },
    decreases kinds.len(),
{
    if kinds.len() > 0 {
        let rest = kinds.drop_last();
        lemma_first_named(rest, name);
        assert forall|j: int| 0 <= j < rest.len() implies #[trigger] rest[j] == kinds[j] by {}
        match first_named(rest, name) {
            Some(i) => {
                assert(rest[i] == kinds[i]);
                assert forall|j: int| 0 <= j < i implies (#[trigger] kinds[j]).name@ != name by {
                    assert(rest[j] == kinds[j]);
                }
            },
            None => {
                assert forall|j: int| 0 <= j < rest.len() implies (#[trigger] kinds[j]).name@ != name by {
                    assert(rest[j] == kinds[j]);
                }
            },
        }
    }
}

/// A place that holds the first kind of a name is what `first_named` finds.
pub proof fn lemma_first_named_is(kinds: Seq<EnemyTemplate>, name: Seq<char>, i: int)
    requires
        0 <= i < kinds.len(),
        kinds[i].name@ == name,
        forall|j: int| 0 <= j < i ==> (#[trigger] kinds[j]).name@ != name,
    ensures
        first_named(kinds, name) == Some(i),
{
    lemma_first_named(kinds, name);
}

/// The kinds of enemies, the milliseconds between two enemies, and the
/// milliseconds since the last one.
#[derive(Debug, PartialEq, Eq)]
pub struct EnemyManager {
    pub enemy_templates: Vec<EnemyTemplate>,
    pub spawn_timer: u32,
    pub timer_current: u32,
}

impl EnemyManager {
    /// Every kind is well formed.
    pub open spec fn wf(self, animations: AnimationDataHandler) -> bool {
        forall|i: int|
            0 <= i < self.enemy_templates.len() ==> (#[trigger] self.enemy_templates[i]).wf(animations)
    }

    /// Whether an enemy is due, `dt` milliseconds on.
    pub open spec fn due(self, dt: u16) -> bool {
        self.timer_current + dt >= self.spawn_timer
    }

    /// The milliseconds since the last enemy, `dt` milliseconds on: none if
    /// an enemy is due.
    pub open spec fn timer_after(self, dt: u16) -> u32 {
        if self.due(dt) {
            0
        } else {
            (self.timer_current + dt) as u32
        }
    }

    /// Takes in a kind of enemy.
    pub fn add_template(&mut self, template: EnemyTemplate)
        ensures
            final(self).enemy_templates@ == old(self).enemy_templates@.push(template),
            final(self).spawn_timer == old(self).spawn_timer,
            final(self).timer_current == old(self).timer_current,
            forall|animations: AnimationDataHandler|
                old(self).wf(animations) && template.wf(animations) ==> final(self).wf(animations),
    {
        self.enemy_templates.push(template);
    }

    /// The place of the first kind of a name, if there is one.
    pub fn find(&self, name: &String) -> (found: Option<usize>)
        ensures
            match found {
                Some(i) => first_named(self.enemy_templates@, name@) == Some(i as int) && i
                    < self.enemy_templates.len(),
                None => first_named(self.enemy_templates@, name@) is None,
            },
    {
        proof {
            lemma_first_named(self.enemy_templates@, name@);
        }
        let mut i: usize = 0;
        while i < self.enemy_templates.len()
            invariant
                0 <= i <= self.enemy_templates.len(),
                forall|j: int| 0 <= j < i ==> (#[trigger] self.enemy_templates[j]).name@ != name@,
            decreases self.enemy_templates.len() - i,
        {
            if self.enemy_templates[i].name == *name {
                proof {
                    lemma_first_named_is(self.enemy_templates@, name@, i as int);
                }
                return Some(i);
            }
            i += 1;
        }
        None
    }

    /// The first kind of a name.
    pub fn get_enemy_info(&self, name: &String) -> (kind: &EnemyTemplate)
        requires
            first_named(self.enemy_templates@, name@) is Some,
        ensures
            *kind == self.enemy_templates[first_named(self.enemy_templates@, name@).unwrap()],
    {
        match self.find(name) {
            Some(i) => &self.enemy_templates[i],
            None => &self.enemy_templates[0],
        }
    }

    /// Lets `dt` milliseconds pass, and tells whether an enemy is due; if
    /// one is, the clock starts again.
    pub fn update_spawn_timer(&mut self, dt: u16) -> (due: bool)
        ensures
            due == old(self).due(dt),
            final(self).timer_current == old(self).timer_after(dt),
            final(self).spawn_timer == old(self).spawn_timer,
            final(self).enemy_templates == old(self).enemy_templates,
    {
        let t: u64 = self.timer_current as u64 + dt as u64;
        if t >= self.spawn_timer as u64 {
            self.timer_current = 0;
            true
        } else {
            self.timer_current = t as u32;
            false
        }
    }
}

impl Default for EnemyManager {
    /// No kinds yet; an enemy is due at once and then every two seconds.
    fn default() -> (m: EnemyManager)
        ensures
            m.enemy_templates.len() == 0,
            m.spawn_timer == 2_000,
            m.timer_current == 99_000,
            forall|animations: AnimationDataHandler| m.wf(animations),
    {
        EnemyManager { enemy_templates: Vec::new(), spawn_timer: 2_000, timer_current: 99_000 }
    }
}

} // verus!
