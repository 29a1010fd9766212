//! Core of a frame-based renderer: per-frame transactional resource
//! lifecycle, a renderer-composition protocol over shared color targets,
//! rolling frame-timing statistics, and an exact-arithmetic 2D camera
//! transform.
//!
//! Device, surface and window work is I/O and lives outside this crate;
//! the crate holds the decisions, the protocol and the arithmetic, each
//! with a proved contract.

pub mod clock;
pub mod compose;
pub mod frame;
pub mod frame_counter;
pub mod view;
