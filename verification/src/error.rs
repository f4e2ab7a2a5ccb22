//! The errors of the library.

use vstd::prelude::*;

verus! {

/// `std::io::Error`, carried opaquely in [`OsRotError::DevicePath`].
#[verifier::external_type_specification]
#[verifier::external_body]
pub struct ExIoError(std::io::Error);

/// Everything that can go wrong while talking to the os_rot driver.
///
/// A failed ioctl carries the raw OS error number that the driver returned.
#[derive(Debug)]
pub enum OsRotError {
    /// failed to open os_rot device
    DevicePath(std::io::Error),
    /// the number of measurement logs changed between ioctl calls
    LogSizeChanged,
    /// the number of certs changed between ioctl calls
    CertSizeChanged,
    /// OS_ROT_IOC_GET_LOG ioctl call failed
    GetLogsIoctl { errno: i32 },
    /// OS_ROT_IOC_GET_CERTS ioctl call failed
    GetCertsIoctl { errno: i32 },
    /// OS_ROT_IOC_ATTEST ioctl call failed
    AttestIoctl { errno: i32 },
    /// flexible array layout overflowed
    LayoutOverflow,
    /// kernel reported an implausibly large size
    TooLarge { requested: usize },
}

} // verus!
