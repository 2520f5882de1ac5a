//! Callback requests for Bubble Services: the rules of the web application,
//! stated and proved apart from the server that carries them.
//!
//! A visitor's form is decoded and validated, the row to be stored is drawn
//! up, and every outcome is answered with a redirect and a flash message.
//! The pages, the configuration values and the database connection settings
//! are computed here as plain data; listening, reading files and talking to
//! the database are left to the program that links this crate.

pub mod configuration;
pub mod domain;
pub mod flash;
pub mod routes;
pub mod startup;
