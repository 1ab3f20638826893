//! A concurrent pixel-streaming core: a resizable RGBA raster, workers that
//! synthesize pixel writes, bounded channels between them, a budgeted
//! consumer, a rate controller, and the resize protocol that keeps them
//! consistent across a resolution change.

pub mod buffer;
pub mod pipeline;
pub mod pixel;
pub mod queue;
pub mod rate;
pub mod raster;
pub mod worker;
