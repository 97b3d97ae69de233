//! Frame planning core of a deferred renderer: which drawables take part in a
//! render stage, which techniques and scopes are bound for each of their parts,
//! which shadow maps are refreshed this frame, and which render targets exist at
//! the current output size.
//!
//! The library never touches a graphics device. Every operation that the
//! renderer performs on the device is returned as a list of [`command::GpuCommand`]
//! values, in the order in which they are to be submitted.

pub mod command;
pub mod components;
pub mod debug;
pub mod dynamic_geometry;
pub mod gbuffer;
pub mod order;
pub mod postprocess;
pub mod renderer;
pub mod scene;
pub mod settings;
pub mod shader;
pub mod shadows;
pub mod ssao;
pub mod stage;
pub mod systems;
pub mod target;
pub mod technique;
pub mod visibility;
