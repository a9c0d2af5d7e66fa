//! Verified core of the DigitalRobbo front-end: object pools, grid geometry,
//! player steering, menu and game-flow state machines, and the mappings from
//! simulation events to sounds, effects and sprites.

pub mod audio;
pub mod editor;
pub mod elements;
pub mod events;
pub mod flow;
pub mod grid;
pub mod intro;
pub mod levels;
pub mod main_menu;
pub mod music;
pub mod pool;
pub mod progress;
pub mod session;
pub mod smoke;
pub mod steering;
pub mod visuals;
