//! A fullscreen slideshow: images are fetched from a remote folder once at
//! startup and then cycled on a fixed timer.
//!
//! The verified core is the slideshow controller (`slideshow`): the current
//! index, the swap deadline and the countdown shown next to the picture.
//! The selection of image files from a remote folder listing is verified in
//! `listing`. Authorization, the network transfer and the rendering itself
//! are unverified shells around this library.

pub mod listing;
pub mod slideshow;
