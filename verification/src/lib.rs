//! Verified core of a real-estate Telegram bot: the dialogue that collects a
//! buyer's search profile, the texts and keyboards it shows, the callback
//! protocol of its inline buttons, the validation rules of the admin API and
//! the reading of the configuration.

pub mod admin;
pub mod callbacks;
pub mod cards;
pub mod config;
pub mod dialogue;
pub mod html;
pub mod ids;
pub mod keyboards;
pub mod models;
pub mod numbers;
pub mod search;
pub mod text;
