//! Domain core of a customer-relationship manager: contact lifecycle,
//! field validation and the integer side of engagement scoring.

pub mod text;
pub mod errors;
pub mod pattern;
pub mod validation;
pub mod number;
pub mod time;
pub mod status;
pub mod contact;
pub mod builder;
pub mod engagement;
pub mod service;
pub mod campaign;
pub mod config;
pub mod models;
pub mod updater;
pub mod update;
pub mod ranking;
