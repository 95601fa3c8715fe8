//! A client library for Navidrome / Subsonic music servers, with the
//! decisions of the `nia` desktop player and its command line launcher.

pub mod json;
pub mod models;
pub mod auth;
pub mod subsonic;
pub mod browsing;
pub mod lists;
pub mod stream;
pub mod cli;
pub mod app_state;
pub mod screens;
