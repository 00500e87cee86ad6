//! Verified core of the Asaogea engine: resource ownership, profiling,
//! GPU queue selection, swapchain configuration, buffer bookkeeping,
//! asset URI handling, shader definitions and UI window bookkeeping.
pub mod options;
pub mod gfx;
pub mod assets;
pub mod types;
pub mod shaders;
pub mod ui;
pub mod input;
