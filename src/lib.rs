//! Backend negotiation policy for a browser-hosted GPU renderer.

pub mod backend;
pub mod renderer;
