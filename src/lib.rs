//! Client-side logic of a tray front-end for a VPN client daemon: status
//! classification, URL extraction, the network fetch retry engine, the
//! authentication flow and the shared application state.
pub mod text;
pub mod utils;
pub mod models;
pub mod state;
pub mod error;
pub mod network;
pub mod managers;
pub mod auth;
pub mod tray;
pub mod commands;
