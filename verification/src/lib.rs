//! Frame pipeline logic for HDR-aware screen and window capture.
//!
//! The crate holds the decisions of a capture pipeline as verified code over
//! plain values: pixel-format selection, window geometry, the elastic buffer
//! pool, row-pitch stripping, and the state machines behind the two capture
//! modes. The platform calls themselves live with the caller.

pub mod color;
pub mod error;
pub mod frame;
pub mod geometry;
pub mod hdr;
pub mod image;
pub mod pipeline;
pub mod pipeline_laws;
pub mod pipeline_types;
pub mod policy;
pub mod pool;
pub mod pool_laws;
pub mod pool_model;
pub mod reader;
pub mod target;
pub mod texture;
pub mod tonemap;
