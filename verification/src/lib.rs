//! A read-only staff directory: person records with a fixed set of
//! specialties, optional query criteria, and the rules that decide which
//! records a query selects and how an outcome is reported.

pub mod api;
pub mod config;
pub mod db;
pub mod document;
pub mod error;
pub mod filter;
pub mod laws;
pub mod models;
pub mod text;
