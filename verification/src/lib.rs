//! Game rules of a two-player tank battle: kill records, enemy wave
//! bookkeeping, bullet and power-up resolution, animation frame stepping,
//! the camp shovel effect and the stage tally.

pub mod animation;
pub mod bullet;
pub mod collision;
pub mod config;
pub mod enemy;
pub mod facing;
pub mod kill_records;
pub mod level_info;
pub mod map;
pub mod player;
pub mod props;
pub mod shovel;
pub mod sprites;
pub mod stage_completion;
mod rng;
pub mod screens;
