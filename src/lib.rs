//! Encoder for a streamed, animated GIF banner that shows a live clock.
use vstd::prelude::*;

pub mod flags;
pub mod chunk;
pub mod compress;
pub mod gif;
pub mod atlas;
pub mod frame;
pub mod model;
pub mod connection_counter;
