//! Decision core of the tabbify supervisor: what is run, in which order, with
//! which arguments, and what follows each outcome. Nothing here touches a
//! file, a process or a socket; the program around it does, and tells the
//! library how it went.
pub mod boot;
pub mod config;
pub mod docker;
pub mod fetcher;
pub mod firecracker;
pub mod git;
pub mod host;
pub mod http_status;
pub mod ipv4;
pub mod json;
pub mod manifest;
pub mod mesh;
pub mod mesh_command;
pub mod mesh_self_mint;
pub mod number;
pub mod order;
pub mod path;
pub mod polling;
pub mod process;
pub mod runtime;
pub mod sanitize;
pub mod text;
pub mod text_map;
pub mod words;
