//! Core of a small code editor: a theme model, syntax highlighting into
//! styled runs, and a version-stamped cache of everything derived from the
//! document.

pub mod text;
pub mod theme;
pub mod syntax;
pub mod highlight;
pub mod tree;
pub mod editor;
pub mod config;
pub mod app;
