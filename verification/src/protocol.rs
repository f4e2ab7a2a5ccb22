//! The decisions taken on each reply of the driver.
//!
//! Each request is issued by the caller, which hands the driver's reply back
//! as `Ok(())` or `Err(errno)`, the raw OS error number of the failed ioctl.
//!
//! The measurement log and the certificate chain are read in two rounds: a
//! zero-capacity buffer first asks the driver for the current size, then a
//! buffer of exactly that size receives the data.  A driver that reports
//! `ENOSPC` on the second round has grown in between.

use vstd::prelude::*;

use crate::error::OsRotError;
use crate::ffi::{OsRotAttest, OsRotCerts, OsRotLog, OS_ROT_HASH_SIZE, OS_ROT_SIG_SIZE};
use crate::flexible::{
    alloc_flexible_struct, allocated, header_layout_facts, header_layout_valid, layout_of, round_up,
    FlexibleArrayMember,
};

verus! {

/// Whether the raw OS error number `code` is that of
/// `rustix::io::Errno::NOSPC`, the platform's `ENOSPC`.
pub uninterp spec fn errno_is_no_space(code: i32) -> bool;

/// Compares `code` with `rustix::io::Errno::NOSPC.raw_os_error()`.  A failed
/// ioctl's `Errno` equals `NOSPC` exactly where its raw number equals that of
/// `NOSPC`, on both of rustix's backends.  The result is named, not stated,
/// since the number of `ENOSPC` is the platform's (28 on Linux and illumos,
/// other values elsewhere).
#[verifier::external_body]
fn errno_raw_is_no_space(code: i32) -> (r: bool)
    ensures
        r == errno_is_no_space(code),
{
    code == rustix::io::Errno::NOSPC.raw_os_error()
}

/// The zero-capacity log buffer that asks the driver how many measurements
/// it has recorded.
pub fn log_probe() -> (r: Result<OsRotLog, OsRotError>)
    ensures
        r matches Ok(log) && log.count == 0 && log.measurements@.len() == 0,
{
    let r = alloc_flexible_struct::<OsRotLog>(0);
    header_layout_facts();
    proof {
        lemma_zero_capacity_layout::<OsRotLog>();
    }
    r
}

/// The log buffer to issue after the probe: on success, room for exactly
/// the number of measurements the driver reported in the probe's count.
pub fn log_request(probe: &OsRotLog, reply: Result<(), i32>) -> (r: Result<OsRotLog, OsRotError>)
    ensures
        match reply {
            Ok(_) => allocated(r, probe.count) && (r matches Ok(logs) ==> logs.count == probe.count
                && logs.measurements@.len() == probe.count),
            Err(errno) => r == Err::<OsRotLog, OsRotError>(OsRotError::GetLogsIoctl { errno }),
        },
{
    match reply {
        Ok(_) => alloc_flexible_struct::<OsRotLog>(probe.count),
        Err(errno) => Err(OsRotError::GetLogsIoctl { errno }),
    }
}

/// The outcome of reading the measurement log into `logs`: on success the
/// hashes the driver reported; `LogSizeChanged` where the buffer was too
/// small, or where a buffer with no room (the log was empty at the probe)
/// comes back holding a count, the log having grown in between; otherwise
/// the ioctl's error.
pub fn log_reply(logs: &OsRotLog, reply: Result<(), i32>) -> (r: Result<Vec<Vec<u8>>, OsRotError>)
    requires
        reply is Ok && logs.measurements.len() > 0 ==> logs.count <= logs.measurements.len(),
    ensures
        match reply {
            Ok(_) => if logs.measurements.len() == 0 && logs.count > 0 {
                r == Err::<Vec<Vec<u8>>, OsRotError>(OsRotError::LogSizeChanged)
            } else {
                r matches Ok(hashes) && logs.are_reported_hashes(hashes@) && hashes@.len()
                    == logs.count && forall|i: int|
                    0 <= i < logs.count ==> (#[trigger] hashes@[i])@ == logs.measurements@[i].hash@
            },
            Err(errno) => r == Err::<Vec<Vec<u8>>, OsRotError>(
                if errno_is_no_space(errno) {
                    OsRotError::LogSizeChanged
                } else {
                    OsRotError::GetLogsIoctl { errno }
                },
            ),
        },
{
    match reply {
        Ok(_) => {
            if logs.measurements.len() == 0 && logs.count > 0 {
                Err(OsRotError::LogSizeChanged)
            } else {
                Ok(logs.measurement_hashes())
            }
        },
        Err(errno) => {
            if errno_raw_is_no_space(errno) {
                Err(OsRotError::LogSizeChanged)
            } else {
                Err(OsRotError::GetLogsIoctl { errno })
            }
        },
    }
}

/// The zero-capacity certificate buffer that asks the driver for the size of
/// the chain.
pub fn certs_probe() -> (r: Result<OsRotCerts, OsRotError>)
    ensures
        r matches Ok(certs) && certs.chain_size == 0 && certs.chain@.len() == 0,
{
    let r = alloc_flexible_struct::<OsRotCerts>(0);
    header_layout_facts();
    proof {
        lemma_zero_capacity_layout::<OsRotCerts>();
    }
    r
}

/// The certificate buffer to issue after the probe: on success, room for
/// exactly the chain size the driver reported in the probe.
pub fn certs_request(probe: &OsRotCerts, reply: Result<(), i32>) -> (r: Result<OsRotCerts, OsRotError>)
    ensures
        match reply {
            Ok(_) => allocated(r, probe.chain_size) && (r matches Ok(certs) ==> certs.chain_size
                == probe.chain_size && certs.chain@.len() == probe.chain_size),
            Err(errno) => r == Err::<OsRotCerts, OsRotError>(OsRotError::GetCertsIoctl { errno }),
        },
{
    match reply {
        Ok(_) => alloc_flexible_struct::<OsRotCerts>(probe.chain_size),
        Err(errno) => Err(OsRotError::GetCertsIoctl { errno }),
    }
}

/// The outcome of reading the certificate chain into `certs`: on success the
/// chain bytes the driver reported; `CertSizeChanged` where the buffer was
/// too small, or where a buffer with no room (the chain was empty at the
/// probe) comes back holding a size, the chain having grown in between;
/// otherwise the ioctl's error.
pub fn certs_reply(certs: &OsRotCerts, reply: Result<(), i32>) -> (r: Result<Vec<u8>, OsRotError>)
    requires
        reply is Ok && certs.chain.len() > 0 ==> certs.chain_size <= certs.chain.len(),
    ensures
        match reply {
            Ok(_) => if certs.chain.len() == 0 && certs.chain_size > 0 {
                r == Err::<Vec<u8>, OsRotError>(OsRotError::CertSizeChanged)
            } else {
                r matches Ok(chain) && chain@ == certs.reported_chain() && chain@ == certs.chain@.take(
                    certs.chain_size as int,
                ) && chain@.len() == certs.chain_size
            },
            Err(errno) => r == Err::<Vec<u8>, OsRotError>(
                if errno_is_no_space(errno) {
                    OsRotError::CertSizeChanged
                } else {
                    OsRotError::GetCertsIoctl { errno }
                },
            ),
        },
{
    match reply {
        Ok(_) => {
            if certs.chain.len() == 0 && certs.chain_size > 0 {
                Err(OsRotError::CertSizeChanged)
            } else {
                Ok(certs.chain_bytes())
            }
        },
        Err(errno) => {
            if errno_raw_is_no_space(errno) {
                Err(OsRotError::CertSizeChanged)
            } else {
                Err(OsRotError::GetCertsIoctl { errno })
            }
        },
    }
}

/// The attestation request over `nonce`: the nonce as given, the signature
/// zeroed for the driver to fill.
pub fn attest_request(nonce: &[u8; OS_ROT_HASH_SIZE]) -> (r: OsRotAttest)
    ensures
        r.nonce@ == nonce@,
        forall|i: int| 0 <= i < OS_ROT_SIG_SIZE ==> #[trigger] r.sig@[i] == 0,
{
    OsRotAttest { nonce: *nonce, sig: [0u8; 96] }
}

/// The outcome of an attestation: on success the signature the driver wrote,
/// all of its bytes; otherwise the ioctl's error.
pub fn attest_reply(attest: &OsRotAttest, reply: Result<(), i32>) -> (r: Result<Vec<u8>, OsRotError>)
    ensures
        match reply {
            Ok(_) => r matches Ok(sig) && sig@ == attest.sig@,
            Err(errno) => r == Err::<Vec<u8>, OsRotError>(OsRotError::AttestIoctl { errno }),
        },
{
    match reply {
        Ok(_) => Ok(vstd::slice::slice_to_vec(attest.sig.as_slice())),
        Err(errno) => Err(OsRotError::AttestIoctl { errno }),
    }
}

/// A buffer with room for no item is always laid out.
proof fn lemma_zero_capacity_layout<D: FlexibleArrayMember>()
    requires
        D::abi_item_align() == 1,
        header_layout_valid(),
    ensures
        layout_of::<D>(0) is Ok,
{
    assert(round_up(4, 1) == 4);
}

} // verus!
