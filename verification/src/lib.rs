//! Control logic of a timelapse camera: which frames are kept, what is drawn on
//! them, under which name they are stored and how long the camera rests.
//!
//! The library touches neither camera nor disk. [`controller::Controller`]
//! decides, step by step, what is to be done next, and a driver does it:
//!
//! - [`session`] holds the settings of a run and screens its frames;
//! - [`timestamp`] reads the clock and spells the moment of a capture;
//! - [`overlay`] describes the banner and the caption drawn on a frame;
//! - [`archive`] names the file in which a frame is stored, with the help of
//!   [`decimal`], and says how the names sort, in the terms of [`sorting`];
//! - [`laws`] states what holds of every run.

pub mod archive;
pub mod controller;
pub mod decimal;
pub mod laws;
pub mod overlay;
pub mod session;
pub mod sorting;
pub mod timestamp;
