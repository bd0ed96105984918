//! Rendering-state core of a 2D drawing layer: the coordinate-system math,
//! the pipeline layout, the sampler cache, and the bookkeeping of a frame
//! from its clear to its present.
//!
//! Everything here is exact and free of side effects:
//!
//! - Matrices have integer entries and are read in homogeneous coordinates,
//!   so a projection needs no division and products do not round. A result
//!   that does not fit in 32 bits is an error, never a wrong matrix.
//! - The GPU is not touched. Clears, uploads and draws are queued as
//!   commands, and `present` hands the queue out, in order, to whoever owns
//!   the device. Device resources are named by handles.
//! - Changes to the transforms and the projection take effect only when
//!   they are applied; `transformations_applied` tells whether they were.
//!
//! `graphics` holds the operations on a `Context`; the other modules hold
//! the parts that it is made of.

pub mod backend;
pub mod command;
pub mod conf;
pub mod context;
pub mod error;
pub mod graphics;
pub mod image;
pub mod matrix;
pub mod pipeline;
pub mod projection;
pub mod sampler;
pub mod screenshot;
pub mod target;
pub mod text;
pub mod transform;
pub mod types;
