//! A minimal rendering pipeline driven through GPU commands: the drawables'
//! resource creation, their per-frame draw, the texture with its placeholder,
//! and the frame driver around them.
pub mod command;
pub mod creation;
pub mod drawable;
pub mod engine;
pub mod texture;
