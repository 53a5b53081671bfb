//! Verified core of the Rincuma to-do list service: account e-mail rules,
//! password hashing policy, session tokens and cookies, configuration and
//! the request decisions of the authentication and task endpoints.

pub mod text;
pub mod password;
pub mod error;
pub mod email;
pub mod token;
pub mod session_cookie;
pub mod time;
pub mod session;
pub mod auth;
pub mod config;
pub mod task;
