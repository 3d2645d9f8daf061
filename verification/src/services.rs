//! The decisions of each service, taking what storage returned as arguments.

pub mod message_service;
pub mod note_service;
pub mod participant_service;
pub mod session_service;
pub mod user_service;
