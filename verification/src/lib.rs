//! Surface and window-lifecycle decisions of a small wgpu/winit renderer.

pub mod adapter;
pub mod events;
pub mod formats;
pub mod lifecycle;
pub mod surface;
pub mod state;
