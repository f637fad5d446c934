//! Backend-agnostic descriptors of render targets: screen rectangles, clear
//! requests and the attachments that a fragment-shader output or a clear addresses.
use vstd::prelude::*;

pub mod target;

pub use target::{ClearData, ColorBits, DepthBits, Layer, Level, Rect, Stencil, Target};
