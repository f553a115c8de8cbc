//! Short-link redirect core: link resolution, the redirect decision, and the
//! signed analytics publish that runs beside it.

pub mod text;
pub mod signing;
pub mod config;
pub mod models;
pub mod resolver;
pub mod handler;
pub mod publisher;
