//! The job runtime of a compute-sharing node.

pub mod command;
pub mod digest;
pub mod engine;
pub mod gpu;
pub mod install;
pub mod install_laws;
pub mod isolation;
pub mod job_laws;
pub mod job_runner;
pub mod node;
pub mod node_laws;
pub mod probe;
pub mod provision;
pub mod render;
pub mod render_laws;
pub mod sandbox;
pub mod text;
pub mod wsl;
