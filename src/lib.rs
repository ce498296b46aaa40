pub mod consts;
pub mod flags;
pub mod motion;
pub mod entity;
pub mod store;
pub mod game;
pub mod debug;
