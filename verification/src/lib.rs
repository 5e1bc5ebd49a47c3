pub mod boundary;
pub mod discover;
pub mod http;
pub mod ipc;
pub mod plugin_shared;
pub mod plugins;
pub mod registry;
pub mod table;
pub mod text;
pub mod types;
