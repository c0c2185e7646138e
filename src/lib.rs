//! A task-list backend core: user registration with one-time passcodes,
//! password and bearer-token authentication, and per-user list items with
//! pagination and search, all over verified in-memory tables.

pub mod errors;
pub mod text;
pub mod password;
pub mod token;
pub mod otp;
pub mod models;
pub mod users;
pub mod otps;
pub mod lists;
pub mod auth;
pub mod list_api;
