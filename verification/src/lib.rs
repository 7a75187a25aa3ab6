//! Game rules of a small top-down action game in which the hero heals
//! enemies, purifies fountains and finally heals the Demon King.
//!
//! Every module holds the state one kind of scene object reasons about,
//! as plain values, and the decisions that object takes when the engine
//! reports an event.  The engine side performs the returned actions.
pub mod direction;
pub mod naming;
pub mod registry;
pub mod bodies;
pub mod boss_bullet;
pub mod bullet;
pub mod controller;
pub mod demon_king;
pub mod enemy;
pub mod fountain;
pub mod ground_attack;
pub mod hud;
pub mod loading_zone;
pub mod pause_menu;
pub mod player_bullet;
pub mod room;
pub mod title;
pub mod world_text;

pub use bodies::BodyGroups;
pub use boss_bullet::BossBullet;
pub use bullet::Bullet;
pub use controller::Controller;
pub use demon_king::DemonKing;
pub use direction::Direction;
pub use enemy::Enemy;
pub use fountain::Fountain;
pub use ground_attack::GroundAttack;
pub use loading_zone::LoadingZone;
pub use pause_menu::PauseMenu;
pub use player_bullet::PlayerBullet;
pub use registry::Position;
pub use room::Room;
pub use title::Title;
pub use world_text::WorldText;
