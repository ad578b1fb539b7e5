pub mod backend;
pub mod config;
pub mod controls;
pub mod media;
pub mod player;
pub mod sampler;
pub mod text;
pub mod ui;
