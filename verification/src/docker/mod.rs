//! The docker side: building and pushing images, and running an app's
//! container.
pub mod image_build;
pub mod launch;
pub mod protocol;
pub mod purge;
pub mod push;
pub mod runtime;
