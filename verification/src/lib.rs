//! Verified rules of the VantumPOS till: settings, shifts, users, the
//! working-time register, supplier documents, and which schema migrations a
//! database still needs.
pub mod auth;
pub mod calendar;
pub mod csv;
pub mod dobavljaci;
pub mod error;
pub mod migrations;
pub mod settings;
pub mod shifts;
pub mod text;
pub mod users;
pub mod worktime;
