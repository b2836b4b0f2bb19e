//! An interactive node-diagram canvas: a pannable, zoomable viewport over a
//! store of rectangular nodes, driven by pointer events.
//!
//! All geometry is kept in integers. Screen and world coordinates are whole
//! units (pixels at scaling one), and the zoom factor is held in thousandths.

pub mod geometry;
pub mod node;
pub mod cache;
pub mod network;
pub mod laws;
