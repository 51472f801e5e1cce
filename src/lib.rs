//! The command processor of a multi-layer clip editor: a timeline of layers
//! and clips, and the lifecycle of one preview session, driven one command at
//! a time against a media engine that the caller operates.
pub mod error;
pub mod timeline;
pub mod session;
pub mod processor;
pub mod laws;
