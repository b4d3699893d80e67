//! The decisions of the two request filters: who may pass, and which responses get compressed.

pub mod auth;
pub mod compress;
