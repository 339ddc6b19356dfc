//! Requests, replies and the session that sequences them.

pub mod address;
pub mod async_worker;
pub mod game;
pub mod github;
pub mod github_service;
pub mod plugin;
pub mod server_connection;
pub mod server_service;
pub mod user;
pub mod websocket;
pub mod whist_info;
