//! Gesture recognition for a pannable, zoomable drawing surface.
//!
//! A stream of pointer contacts and frame ticks is interpreted as one of a
//! few interaction modes (idle, pressing, panning, zooming in, zooming out),
//! and the modes drive a view transform that a renderer reads once per frame.
//!
//! All quantities are exact integers. Time is counted in microseconds,
//! positions and sizes in device pixels, and the zoom scale is held by its
//! binary logarithm, so that continuous zooming is plain addition.

pub mod display;
pub mod gesture;
pub mod interaction;
pub mod laws;
pub mod time;
pub mod transform;
pub mod uniforms;
