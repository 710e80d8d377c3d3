//! Verified core of a desktop shortcut launcher: shortcut records and
//! their persisted state, `.lnk` path checks, icon source resolution,
//! wide-string conversion, icon pixel handling and window docking geometry.

pub mod text;
pub mod wide;
pub mod model;
pub mod icons;
pub mod icon_image;
pub mod icon_search;
pub mod paths;
pub mod shortcut;
pub mod ops;
pub mod window;
pub mod platform;
