//! The data that an entity can carry.

pub mod animation;
pub mod attack;
pub mod collider;
pub mod direction;
pub mod enemy;
pub mod player;
pub mod tile;
pub mod transform;

pub use animation::Animation;
pub use attack::{Attack, AttackMaker};
pub use collider::{convert_velocity, BodyType, Collider};
pub use direction::{check_direction, direction_to_f32_array, Direction};
pub use enemy::Enemy;
pub use player::Player;
pub use tile::Tile;
pub use transform::Transform;
