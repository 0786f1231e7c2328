//! Pipeline caching and temporal resource lifecycle for a frame-graph renderer.
//!
//! The crate covers two subsystems: a pipeline cache that deduplicates and
//! registers GPU pipeline programs (compute, raster, ray tracing), detects
//! staleness and materializes pipeline objects once their shaders are
//! compiled; and a temporal resource ledger that lets a frame graph reuse
//! GPU-resident images and buffers across frame boundaries under a strict
//! claim/export/retire state machine.
//!
//! Shader compilation itself, driver pipeline-object construction and GPU
//! execution are outside collaborators: their results enter the library as
//! plain values, and every decision taken on those values is verified.

pub mod hit_groups;
pub mod pipeline_cache;
pub mod render_graph;
pub mod shader;
pub mod temporal;
