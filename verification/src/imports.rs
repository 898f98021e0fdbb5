pub mod api;
pub mod bindings;
pub mod repo;
