//! Verified core of the ticket desk web server.
pub mod text;
pub mod ticket_command;
pub mod config;
pub mod bounded;
pub mod ids;
pub mod account;
pub mod ticket;
pub mod matrix;
pub mod api;
pub mod auth;
pub mod oidc;
pub mod bm_uuid;
