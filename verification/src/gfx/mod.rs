//! Decisions of the graphics back end, held apart from the driver calls.
pub mod buffer;
pub mod device;
pub mod draw_list;
pub mod frame_loop;
pub mod image;
pub mod mesh;
pub mod object_names;
pub mod pipeline;
pub mod queues;
pub mod render_pass;
pub mod swapchain;
