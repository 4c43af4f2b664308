//! Task tracker core: the todo document, its mutations and the window
//! docking geometry.

pub mod clock;
pub mod commands;
pub mod error;
pub mod geometry;
pub mod models;
