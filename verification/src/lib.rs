//! Communication with the helios AMD RoT (PSP) through the `os_rot` driver.
//!
//! The OS driver makes use of the DICE Protection Environment (DPE) present on
//! the AMD CPU to measure and attest to the phase 1 and 2 images.  This crate
//! holds the driver's ABI structures, the sizing of its variable-length
//! buffers, and the decisions taken on each reply of the driver; the caller
//! opens the device and issues the ioctls.

pub mod error;
pub mod ffi;
pub mod flexible;
pub mod protocol;
pub mod reply;

pub use error::OsRotError;
pub use ffi::{OsRotAttest, OsRotCerts, OsRotLog, OsRotMeasurement};
pub use flexible::{alloc_flexible_struct, flexible_layout, FlexibleArrayMember, FlexibleLayout};
pub use protocol::{
    attest_reply, attest_request, certs_probe, certs_reply, certs_request, log_probe, log_reply,
    log_request,
};
