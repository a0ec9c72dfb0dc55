//! Core of an interactive function plotter: a registry of plotted functions
//! with cycling colors, a zoom controller, a coordinate transform between
//! math space and screen space, a sampler that walks the visible domain, and
//! a renderer that turns all of that into a list of drawing commands.
//!
//! Real-valued quantities are carried as fixed-point integers so that every
//! computation is exact: domain coordinates and scroll deltas count
//! thousandths (milli-units), the zoom scale counts two-thousandths, and
//! screen positions count millionths of a pixel (micro-pixels).

pub mod color;
pub mod graph;
pub mod render;
pub mod sampler;
pub mod transform;
pub mod zoom;
