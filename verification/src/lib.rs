//! A camera capture backend: what a device, its worker and the device manager
//! decide, apart from the camera system that they drive.
//!
//! - [`manager`] keeps the devices of a system and [`device`] is one of them.
//! - [`worker`] drives a camera: it names one action at a time and takes note of
//!   what came of it. [`steps`] states what each event does to it, and [`laws`] what
//!   holds of it over any course of events.
//! - [`calls`] states what each call gives, in terms of what it was given.
//! - [`command`] and [`error`] are what devices and workers say to each other.
//! - [`formats`] lists what a camera offers, [`settings`] reads what a caller asks
//!   for and [`frame`] makes frames of what the camera delivers.
//! - [`fourcc`] and [`video`] number the video formats.
//! - [`variant`] tells what is relied on of the dynamic values of `x-variant`.
pub mod calls;
pub mod command;
pub mod device;
pub mod error;
pub mod formats;
pub mod fourcc;
pub mod frame;
pub mod laws;
pub mod manager;
pub mod settings;
pub mod steps;
pub mod variant;
pub mod video;
pub mod worker;
