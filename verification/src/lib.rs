//! Verified data models and view logic for a dataspace (EDC) management console.

pub mod text;
pub mod outside;
pub mod models;
pub mod catalog;
pub mod contexts;
pub mod ui;
pub mod identity;
pub mod laws;
