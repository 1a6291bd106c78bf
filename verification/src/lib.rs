//! Verified core of a small real-time renderer.
//!
//! The crate plans what a GPU backend has to create and record: binding
//! schemas, bind groups, pipeline descriptions, meshes, the instance grid of
//! the physically based effect and the commands of each render pass. Every
//! plan is a plain value with an exact contract; a backend turns the plans
//! into device calls.

pub mod camera;
pub mod const_mesh;
pub mod geometry;
pub mod gpu;
pub mod model;
pub mod pipelines;
pub mod ratio;
pub mod render;
pub mod render_types;
pub mod scene;
pub mod shader;
pub mod texture;
