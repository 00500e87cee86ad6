//! Asset loading decisions.
pub mod gltf;
pub mod gltf_content;
