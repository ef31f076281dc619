//! The per-frame interaction and state core of an immediate-mode GUI.
//!
//! All geometry is fixed-point: a coordinate counts thousandths of a logical
//! point, and a pixel ratio counts thousandths of a pixel per point.

pub mod animation;
pub mod context;
pub mod fonts;
pub mod frame_state;
pub mod geometry;
pub mod graphics;
pub mod ids;
pub mod input;
pub mod interact;
pub mod layout;
pub mod memory;
