//! A verified GlobalProtect client core: what a real client sends to a portal
//! and gateway, how it reads their replies, and the state kept around a tunnel.
pub mod auth;
pub mod commands;
pub mod credential;
pub mod credentials;
pub mod deadline;
pub mod digest;
pub mod error;
pub mod gateway;
pub mod openconnect;
pub mod portal;
pub mod helper;
pub mod http;
pub mod prelogin;
pub mod profile;
pub mod prompt;
pub mod runtime;
pub mod settings;
pub mod stats;
pub mod text;
pub mod tls;
pub mod tray;
pub mod xml;
