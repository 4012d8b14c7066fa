//! Decision logic of a shader-driven rendering surface: sizes, input,
//! uniform layouts and frame outcomes, kept apart from the device itself.

pub mod binding;
pub mod bytes;
pub mod camera;
pub mod event_loop;
pub mod frame;
pub mod geometry;
pub mod input;
pub mod pass;
pub mod pipeline;
pub mod server;
pub mod state;
pub mod surface;
pub mod texture;
pub mod time;
pub mod uniform;
