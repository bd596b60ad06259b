//! Frame composition for an immediate-mode 2D renderer: geometry staging,
//! draw batches, the per-frame pass plan, the texture table and the surface
//! size bookkeeping. GPU and windowing calls live in the application layer.

pub mod frame;
pub mod geometry;
pub mod input;
pub mod quad;
pub mod run_loop;
pub mod surface;
pub mod texture;
