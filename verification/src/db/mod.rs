//! What is known of the document store.

pub mod mongodb;
