//! Data models of the UniFi Protect API.

pub mod camera;
pub mod device_tag;
