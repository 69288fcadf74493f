//! A layer compositor: fixed-resolution virtual framebuffer, letterboxed
//! presentation onto a resizable window, and tile-atlas lookup.

pub mod command;
pub mod engine;
pub mod layer;
pub mod letterbox;
pub mod staticlayer;
pub mod tile;
