//! Collaborative coding-session service: the verified core.

pub mod config;
pub mod dto;
pub mod errors;
pub mod extractors;
pub mod live;
pub mod messages;
pub mod models;
pub mod rate_limit;
pub mod response;
pub mod services;
pub mod session_repo;
pub mod text;
pub mod text_edit;
pub mod websocket;
