pub mod botcast_api;
pub mod builtin;
