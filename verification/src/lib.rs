//! The decision core of NetixFS, a service that exposes POSIX filesystem operations over HTTP.
pub mod arguments;
pub mod choices;
pub mod config;
pub mod duration;
pub mod error;
pub mod file;
pub mod laws;
pub mod mode;
pub mod naming;
pub mod parameter;
pub mod parameters;
pub mod path;
pub mod ready;
pub mod root;
pub mod scalars;
pub mod service;
pub mod setting;
pub mod status;
pub mod text;
pub mod user;
pub mod value;
