//! Columnar vector layer over an engine-owned memory model.
//!
//! The host engine owns every native buffer; this crate wraps those buffers
//! into typed, nullable vector views and proves that the views never corrupt
//! engine state: a handle allocated here is released exactly once, a borrowed
//! handle is never released, validity bitmaps are read and written bit by bit,
//! and every bulk write stays inside its declared capacity.

pub mod engine;
pub mod error;
pub mod selection_vector;
pub mod value;
pub mod vector;
