//! The systems that make up a frame, and the order in which they run.

pub mod dispatcher;
pub mod fire_weapon;
pub mod render;
pub mod spawn_enemy;
pub mod update_animation;
pub mod update_attacks;
pub mod update_camera;
pub mod update_enemy;
pub mod update_meshes;
pub mod update_physics;
pub mod update_player;

pub use dispatcher::UnifiedDispatcher;
pub use fire_weapon::FireWeapon;
pub use render::Render;
pub use spawn_enemy::SpawnEnemy;
pub use update_animation::UpdateAnimation;
pub use update_attacks::UpdateAttack;
pub use update_camera::UpdateCamera;
pub use update_meshes::UpdateMeshes;
pub use update_enemy::{compute_direction, UpdateEnemy};
pub use update_physics::UpdatePhysics;
pub use update_player::UpdatePlayer;

use vstd::prelude::*;

verus! {

/// The dispatcher that runs the systems in their order.
pub fn build() -> UnifiedDispatcher {
    dispatcher::new()
}

} // verus!
