//! View logic of a small image viewer: how the window fits the image on screen,
//! how the image turns, where the always-on-top overlay stands, which border a
//! drag resizes, and what the command line asks for.

pub mod cli;
pub mod edges;
pub mod geometry;
pub mod image;
pub mod overlay;
pub mod viewer;

