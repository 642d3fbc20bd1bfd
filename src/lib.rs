pub mod auth;
pub mod download;
pub mod import;
pub mod metadata;
pub mod queue;
pub mod session;
pub mod sidecar;
pub mod text;
