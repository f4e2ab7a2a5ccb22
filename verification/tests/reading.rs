use os_rot::ffi::{
    OS_ROT_DEV, OS_ROT_HASH_SIZE, OS_ROT_IOC, OS_ROT_IOC_ATTEST, OS_ROT_IOC_GET_CERTS,
    OS_ROT_IOC_GET_LOG, OS_ROT_SIG_SIZE,
};
use os_rot::{
    alloc_flexible_struct, attest_reply, attest_request, certs_probe, certs_reply, certs_request,
    log_probe, log_reply, log_request, OsRotCerts, OsRotError, OsRotLog,
};
use rustix::io::Errno;
use rustix::ioctl::Opcode;

fn fill_log(capacity: u32, reported: u32) -> OsRotLog {
    let mut log: OsRotLog = alloc_flexible_struct(capacity).unwrap();
    log.count = reported;
    let n = (reported as usize).min(log.measurements.len());
    for i in 0..n {
        log.measurements[i].hash = [i as u8 + 1; OS_ROT_HASH_SIZE];
    }
    log
}

#[test]
fn measurement_hashes_returns_reported_entries() {
    // Kernel filled 3 of the 4 slots we allocated.
    let log = fill_log(4, 3);
    let hashes = log.measurement_hashes();
    assert_eq!(hashes.len(), 3);
    for (i, h) in hashes.iter().enumerate() {
        assert_eq!(h.as_slice(), [i as u8 + 1; OS_ROT_HASH_SIZE]);
    }
}

#[test]
fn measurement_hashes_empty_log() {
    let log = fill_log(0, 0);
    assert!(log.measurement_hashes().is_empty());
}

#[test]
fn chain_bytes_returns_reported_prefix() {
    let mut certs: OsRotCerts = alloc_flexible_struct(8).unwrap();
    certs.chain_size = 3;
    certs.chain[..3].copy_from_slice(&[0xAA, 0xBB, 0xCC]);
    assert_eq!(certs.chain_bytes(), vec![0xAA, 0xBB, 0xCC]);
}

#[test]
fn ioctl_numbers_spell_rot() {
    let base: Opcode =
        ((b'R' as Opcode) << 24) | ((b'O' as Opcode) << 16) | ((b'T' as Opcode) << 8);
    assert_eq!(OS_ROT_IOC, base);
    assert_eq!(OS_ROT_IOC_GET_LOG, base | 0x01);
    assert_eq!(OS_ROT_IOC_GET_CERTS, base | 0x02);
    assert_eq!(OS_ROT_IOC_ATTEST, base | 0x03);
    assert_eq!(OS_ROT_DEV, "/dev/os_rot");
    assert_eq!(OS_ROT_HASH_SIZE, 48);
    assert_eq!(OS_ROT_SIG_SIZE, 96);
}

#[test]
fn log_read_in_two_rounds() {
    let mut probe = log_probe().unwrap();
    assert_eq!(probe.count, 0);
    assert!(probe.measurements.is_empty());

    // The driver reports 2 measurements in the probe.
    probe.count = 2;
    let mut logs = log_request(&probe, Ok(())).unwrap();
    assert_eq!(logs.count, 2);
    assert_eq!(logs.measurements.len(), 2);

    logs.measurements[0].hash = [0x11; OS_ROT_HASH_SIZE];
    logs.measurements[1].hash = [0x22; OS_ROT_HASH_SIZE];
    let hashes = log_reply(&logs, Ok(())).unwrap();
    assert_eq!(hashes, vec![vec![0x11; 48], vec![0x22; 48]]);
}

#[test]
fn log_probe_failure_is_reported() {
    let probe = log_probe().unwrap();
    let eio = Errno::IO.raw_os_error();
    match log_request(&probe, Err(eio)) {
        Err(OsRotError::GetLogsIoctl { errno }) => assert_eq!(errno, eio),
        other => panic!("unexpected {:?}", other.map(|l| l.count)),
    }
}

#[test]
fn log_probe_reporting_too_many_is_refused() {
    let mut probe = log_probe().unwrap();
    probe.count = 1_000_000;
    match log_request(&probe, Ok(())) {
        Err(OsRotError::TooLarge { requested }) => assert_eq!(requested, 48_000_000),
        other => panic!("unexpected {:?}", other.map(|l| l.count)),
    }
}

#[test]
fn log_growth_between_rounds_is_size_changed() {
    let logs = fill_log(2, 0);
    let nospc = Errno::NOSPC.raw_os_error();
    assert!(matches!(log_reply(&logs, Err(nospc)), Err(OsRotError::LogSizeChanged)));
    let eio = Errno::IO.raw_os_error();
    match log_reply(&logs, Err(eio)) {
        Err(OsRotError::GetLogsIoctl { errno }) => assert_eq!(errno, eio),
        other => panic!("unexpected {:?}", other),
    }
    match log_reply(&logs, Err(0)) {
        Err(OsRotError::GetLogsIoctl { errno }) => assert_eq!(errno, 0),
        other => panic!("unexpected {:?}", other),
    }
}

#[test]
fn certs_read_in_two_rounds() {
    let mut probe = certs_probe().unwrap();
    assert_eq!(probe.chain_size, 0);
    assert!(probe.chain.is_empty());

    probe.chain_size = 5;
    let mut certs = certs_request(&probe, Ok(())).unwrap();
    assert_eq!(certs.chain_size, 5);
    assert_eq!(certs.chain.len(), 5);
    certs.chain.copy_from_slice(&[1, 2, 3, 4, 5]);
    certs.chain_size = 4;
    assert_eq!(certs_reply(&certs, Ok(())).unwrap(), vec![1, 2, 3, 4]);
}

#[test]
fn certs_errors() {
    let probe = certs_probe().unwrap();
    let eio = Errno::IO.raw_os_error();
    match certs_request(&probe, Err(eio)) {
        Err(OsRotError::GetCertsIoctl { errno }) => assert_eq!(errno, eio),
        other => panic!("unexpected {:?}", other.map(|c| c.chain_size)),
    }
    let nospc = Errno::NOSPC.raw_os_error();
    assert!(matches!(certs_reply(&probe, Err(nospc)), Err(OsRotError::CertSizeChanged)));
    match certs_reply(&probe, Err(eio)) {
        Err(OsRotError::GetCertsIoctl { errno }) => assert_eq!(errno, eio),
        other => panic!("unexpected {:?}", other),
    }
}

#[test]
fn attest_carries_nonce_and_returns_signature() {
    let nonce = [0x5A; OS_ROT_HASH_SIZE];
    let mut attest = attest_request(&nonce);
    assert_eq!(attest.nonce, nonce);
    assert_eq!(attest.sig, [0u8; OS_ROT_SIG_SIZE]);

    attest.sig[0] = 0x01;
    attest.sig[95] = 0xFF;
    let sig = attest_reply(&attest, Ok(())).unwrap();
    assert_eq!(sig.len(), OS_ROT_SIG_SIZE);
    assert_eq!(sig[0], 0x01);
    assert_eq!(sig[95], 0xFF);
    assert_eq!(&sig[1..95], &[0u8; 94][..]);

    let eio = Errno::IO.raw_os_error();
    match attest_reply(&attest, Err(eio)) {
        Err(OsRotError::AttestIoctl { errno }) => assert_eq!(errno, eio),
        other => panic!("unexpected {:?}", other),
    }
}

#[test]
fn log_growing_from_empty_is_size_changed() {
    // The probe found no measurements, so the second buffer has no room;
    // the driver answers it as a probe, reporting measurements recorded since.
    let probe = log_probe().unwrap();
    let mut logs = log_request(&probe, Ok(())).unwrap();
    assert!(logs.measurements.is_empty());
    logs.count = 2;
    assert!(matches!(log_reply(&logs, Ok(())), Err(OsRotError::LogSizeChanged)));
    logs.count = 0;
    assert!(log_reply(&logs, Ok(())).unwrap().is_empty());
}

#[test]
fn certs_growing_from_empty_is_size_changed() {
    let probe = certs_probe().unwrap();
    let mut certs = certs_request(&probe, Ok(())).unwrap();
    assert!(certs.chain.is_empty());
    certs.chain_size = 700;
    assert!(matches!(certs_reply(&certs, Ok(())), Err(OsRotError::CertSizeChanged)));
    certs.chain_size = 0;
    assert!(certs_reply(&certs, Ok(())).unwrap().is_empty());
}

#[test]
fn log_tail_bytes_are_hashes_in_slot_order() {
    let mut log = fill_log(3, 3);
    let bytes = log.tail_bytes();
    assert_eq!(bytes.len(), 3 * OS_ROT_HASH_SIZE);
    assert_eq!(&bytes[..48], &[1u8; 48][..]);
    assert_eq!(&bytes[48..96], &[2u8; 48][..]);
    assert_eq!(&bytes[96..], &[3u8; 48][..]);

    let mut fresh: Vec<u8> = (0..144u32).map(|b| b as u8).collect();
    fresh[0] = 0xEE;
    log.set_tail_bytes(&fresh);
    assert_eq!(log.count, 3);
    assert_eq!(log.measurements.len(), 3);
    assert_eq!(log.measurements[0].hash[0], 0xEE);
    assert_eq!(log.measurements[0].hash[47], 47);
    assert_eq!(log.measurements[1].hash[0], 48);
    assert_eq!(log.measurements[2].hash[47], 143);
    assert_eq!(log.tail_bytes(), fresh);
}

#[test]
fn certs_tail_bytes_round_trip() {
    let mut certs: OsRotCerts = alloc_flexible_struct(4).unwrap();
    assert_eq!(certs.tail_bytes(), vec![0u8; 4]);
    certs.set_tail_bytes(&[9, 8, 7, 6]);
    assert_eq!(certs.chain_size, 4);
    assert_eq!(certs.chain, vec![9, 8, 7, 6]);
    assert_eq!(certs.tail_bytes(), vec![9, 8, 7, 6]);
}
