//! Tera templating support for Rocket: the engine setup, template loading and
//! reloading, and the decisions around them.
pub mod tera_api;

pub mod contrib;
pub mod engine;
pub mod context;
