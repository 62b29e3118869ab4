//! Verified core of the Turkish Times streaming site: the decisions and text
//! that the web handlers compute, separated from the database, the templates
//! and the HTTP plumbing.

pub mod numbers;
pub mod text;
pub mod session;
pub mod genres;
pub mod models;
pub mod config;
pub mod pages;
pub mod admin;
pub mod forms;
