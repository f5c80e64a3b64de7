//! The decisions of Taidan, the out-of-box experience and welcome app of
//! Ultramarine Linux: the order of its pages and how one moves between them,
//! the user names it accepts, and the commands that set the desktop theme,
//! accent colour and night light.

pub mod account;
pub mod nav;
pub mod text;
pub mod theme;
