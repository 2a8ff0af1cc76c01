//! Verified core of an array/image viewer: colormap selection, stretch-mode
//! state, cube slice navigation and playback, and the small parsing and
//! indexing rules that the viewer shell relies on.

pub mod text;
pub mod colormap;
pub mod slices;
pub mod stretch;
pub mod image;
pub mod markers;
pub mod input;
