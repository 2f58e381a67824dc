//! Request planning for Switchboard guest plugins.
pub mod text;
pub mod encoding;
pub mod json;
pub mod args;
pub mod request;
pub mod bland;
pub mod tool_def;
pub mod clerk;
pub mod looker;
pub mod figma_bridge;
