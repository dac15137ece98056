//! The state that the systems share.

pub mod animation_data_handler;
pub mod camera;
pub mod center;
pub mod delta_time;
pub mod enemy_manager;
pub mod input_handler;
pub mod projectile;
pub mod random;
pub mod tile_map_storage;

pub use animation_data_handler::{AnimationData, AnimationDataHandler, AnimationError, AnimationSet};
pub use camera::Camera;
pub use center::Center;
pub use delta_time::DeltaTime;
pub use enemy_manager::{EnemyManager, EnemyTemplate};
pub use input_handler::{ElementState, InputHandler, VirtualKeyCode};
pub use projectile::ProjectileTemplate;
pub use random::RandomSource;
pub use tile_map_storage::{TileChunk, TileMapStorage};
