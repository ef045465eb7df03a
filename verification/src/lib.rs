//! Reading and writing the tuning parameters of a USB microphone array.
//!
//! `params` holds the table of parameters, `usb` the control transfers and
//! their bytes, `respeaker_device` the session with one device and its cache
//! of values, `reconcile` the writing back of what an editor changed. The
//! library makes no transfer itself: it says which transfer to make and
//! takes its outcome.

pub mod binary32;
pub mod cache;
pub mod csv;
pub mod order;
pub mod params;
pub mod power;
pub mod reconcile;
pub mod recorder;
pub mod respeaker_device;
pub mod scaling;
pub mod usb;
pub mod value;
