//! Engine-wide building blocks: time, profiling and shared resources.
pub mod clock;
pub mod profiler;
pub mod resource_handle;
pub mod time_delta;
