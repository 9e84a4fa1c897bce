//! The two query surfaces: teachers and users.

pub mod primary;
pub mod users;
