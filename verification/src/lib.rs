//! Verified core of the seishin2d 2D game engine: engine lifecycle, asset and
//! virtual paths, input, audio bookkeeping, the entity world and scenes,
//! project configuration, the decisions of the run loops and of the web
//! build tool.
pub mod text;
pub mod engine;
pub mod ffi;
pub mod asset_path;
pub mod assets;
pub mod audio;
pub mod input;
pub mod actions;
pub mod paths;
pub mod world;
pub mod dialogue;
pub mod render;
pub mod project;
pub mod application;
pub mod store;
pub mod platform;
pub mod runtime;
pub mod scene;
pub mod tooling;
pub mod laws;
