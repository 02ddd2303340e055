//! Preprocessing and reduction logic of an image classifier: aspect-preserving
//! resize targets, centred padding onto a square canvas, channel-major tensor
//! layout, and arg-max over model scores.

pub mod codec;
pub mod geometry;
pub mod pipeline;
pub mod raster;
pub mod scores;
