//! Commands that reach the host over the mesh.
pub mod reboot_guard;
pub mod sink;
