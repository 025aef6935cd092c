//! Window chrome policy for a desktop shell: which cosmetic treatment a
//! window receives, in which order, and what happens when a step fails.

pub mod accent;
pub mod border;
pub mod command;
pub mod decimal;
pub mod greeting;
pub mod platform;
pub mod registry;
pub mod request;
pub mod style;
pub mod theme;
