//! The `os_rot` driver ABI.

use vstd::prelude::*;

use rustix::ioctl::Opcode;

verus! {

/// The path to the os_rot device to issue ioctls.
pub const OS_ROT_DEV: &'static str = "/dev/os_rot";

/// Measurements are assumed to be SHA2-384 digests.
pub const OS_ROT_HASH_SIZE: usize = 48;

/// Attestations are assumed to be 384-bit ECDSA signatures.
pub const OS_ROT_SIG_SIZE: usize = 96;

/// os_rot IOCTLs: the bytes `R`, `O`, `T` in the three high bytes.
pub const OS_ROT_IOC: Opcode = ((0x52 as Opcode) << 24) | ((0x4f as Opcode) << 16) | ((0x54 as Opcode) << 8);

/// Retrieve the measurement log (os_rot_log_t).
pub const OS_ROT_IOC_GET_LOG: Opcode = OS_ROT_IOC | 0x01;

/// Retrieve the certificate chain that links our attestation signing keys to
/// a trusted PKI root (os_rot_certs_t).
pub const OS_ROT_IOC_GET_CERTS: Opcode = OS_ROT_IOC | 0x02;

/// Provides an attestation over the current set of measurements with a given
/// nonce for freshness and returns the resulting signature (os_rot_attest_t).
///
/// The attestation signature is over SHA384(log || nonce), binding the
/// current measurement log to the caller-provided nonce.
pub const OS_ROT_IOC_ATTEST: Opcode = OS_ROT_IOC | 0x03;

/// A single measurement.
#[derive(Debug, Clone, Copy)]
pub struct OsRotMeasurement {
    pub hash: [u8; OS_ROT_HASH_SIZE],
}

/// The measurement log buffer (os_rot_log_t): a `u32` count followed by the
/// trailing array of measurements.
///
/// When `count` is 0 on input, the driver returns the current number of
/// recorded measurements in `count` and writes no entries.  Otherwise `count`
/// is taken as the number of entries the trailing `measurements` buffer can
/// hold; on return it is updated to the number actually written.  If the
/// buffer is too small, ENOSPC is returned.
pub struct OsRotLog {
    pub count: u32,
    pub measurements: Vec<OsRotMeasurement>,
}

/// The certificate chain buffer (os_rot_certs_t): a `u32` size followed by
/// the trailing chain bytes.
///
/// When `chain_size` is 0 on input, the driver returns the required size.
/// Otherwise it fills `chain` with the certificate chain data.
pub struct OsRotCerts {
    pub chain_size: u32,
    pub chain: Vec<u8>,
}

/// The attestation request (os_rot_attest_t): the caller provides `nonce`,
/// which the driver combines with the measurement log and signs, returning
/// the signature in `sig`.
pub struct OsRotAttest {
    pub nonce: [u8; OS_ROT_HASH_SIZE],
    pub sig: [u8; OS_ROT_SIG_SIZE],
}

} // verus!
