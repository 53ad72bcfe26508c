pub mod dbsize;
pub mod static_files;
pub mod websocket;
