//! Full-page capture of a scrollable remote surface: page geometry, the
//! scroll-and-snapshot session, fragment cropping under a pixel-density scale,
//! and vertical composition of the fragments into one image.

pub mod error;
pub mod text;
pub mod parse;
pub mod json;
pub mod density;
pub mod raster;
pub mod crop;
pub mod codec;
pub mod compose;
pub mod metrics;
pub mod session;
pub mod run;
pub mod dom;
pub mod wait;
pub mod provision;
pub mod device;
pub mod screenshot;
pub mod capabilities;
pub mod webdriver;
pub mod appium;
