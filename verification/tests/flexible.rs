use os_rot::ffi::{OsRotLog, OsRotMeasurement, OS_ROT_HASH_SIZE};
use os_rot::flexible::MAX_FLEXIBLE_BYTES;
use os_rot::{alloc_flexible_struct, flexible_layout, OsRotCerts, OsRotError};

#[test]
fn zero_capacity_is_valid() {
    let log: OsRotLog = alloc_flexible_struct(0).unwrap();
    assert_eq!(log.count, 0);
    assert_eq!(log.measurements.len(), 0);
}

#[test]
fn count_field_set_to_capacity() {
    let log: OsRotLog = alloc_flexible_struct(42).unwrap();
    assert_eq!(log.count, 42);
    assert_eq!(log.measurements.len(), 42);
}

#[test]
fn tail_is_zeroed_and_writable() {
    let mut log: OsRotLog = alloc_flexible_struct(3).unwrap();
    for m in &log.measurements {
        assert_eq!(m.hash, [0u8; OS_ROT_HASH_SIZE]);
    }
    log.measurements[1].hash[7] = 0xAB;
    assert_eq!(log.measurements[1].hash[7], 0xAB);
}

fn mock_kernel_fill(log: &mut OsRotLog, reported_count: u32) {
    let cap = log.measurements.len();
    log.count = reported_count;
    let to_write = (reported_count as usize).min(cap);
    for i in 0..to_write {
        log.measurements[i].hash = [(i as u8).wrapping_add(1); OS_ROT_HASH_SIZE];
    }
}

#[test]
fn kernel_fill_within_capacity_is_sound() {
    let mut log: OsRotLog = alloc_flexible_struct(4).unwrap();
    mock_kernel_fill(&mut log, 4);

    for (i, m) in log.measurements.iter().enumerate() {
        assert_eq!(m.hash, [(i as u8).wrapping_add(1); OS_ROT_HASH_SIZE]);
    }
}

#[test]
fn layout_matches_c_struct() {
    let items = 5;
    let log: OsRotLog = alloc_flexible_struct(items).unwrap();
    let layout = flexible_layout::<OsRotLog>(log.count).unwrap();
    assert_eq!(
        layout.size,
        std::mem::size_of::<u32>()
            + (items as usize * std::mem::size_of::<OsRotMeasurement>())
    );

    // The tail must start right after the header (no padding here); the
    // count sits at offset 0.
    assert_eq!(layout.tail_offset, 4);
    assert_eq!(layout.align, std::mem::align_of::<u32>());
}

#[test]
fn certs_zero_capacity_is_valid() {
    let certs: OsRotCerts = alloc_flexible_struct(0).unwrap();
    assert_eq!(certs.chain_size, 0);
    assert!(certs.chain.is_empty());
}

#[test]
fn certs_tail_is_zeroed() {
    let certs: OsRotCerts = alloc_flexible_struct(9).unwrap();
    assert_eq!(certs.chain_size, 9);
    assert_eq!(certs.chain, vec![0u8; 9]);
}

#[test]
fn certs_layout_is_padded_to_header_alignment() {
    let layout = flexible_layout::<OsRotCerts>(3).unwrap();
    assert_eq!(layout.tail_offset, 4);
    assert_eq!(layout.size, 8);
    let layout = flexible_layout::<OsRotCerts>(4).unwrap();
    assert_eq!(layout.size, 8);
    let layout = flexible_layout::<OsRotCerts>(0).unwrap();
    assert_eq!(layout.size, 4);
}

#[test]
fn log_at_size_bound_is_accepted() {
    // 349525 * 48 = 16777200 bytes, just under 16 MiB.
    let layout = flexible_layout::<OsRotLog>(349_525).unwrap();
    assert_eq!(layout.size, 4 + 16_777_200);
    assert!(16_777_200 <= MAX_FLEXIBLE_BYTES);
}

#[test]
fn log_over_size_bound_is_too_large() {
    // 349526 * 48 = 16777248 bytes, just over 16 MiB.
    match flexible_layout::<OsRotLog>(349_526) {
        Err(OsRotError::TooLarge { requested }) => assert_eq!(requested, 16_777_248),
        other => panic!("unexpected {:?}", other),
    }
    let r: Result<OsRotLog, OsRotError> = alloc_flexible_struct(u32::MAX);
    match r {
        Err(OsRotError::TooLarge { requested }) => {
            assert_eq!(requested, u32::MAX as usize * 48)
        }
        Err(other) => panic!("unexpected {:?}", other),
        Ok(_) => panic!("allocated an implausible log"),
    }
}

#[test]
fn certs_size_bound() {
    let layout = flexible_layout::<OsRotCerts>(16 * 1024 * 1024).unwrap();
    assert_eq!(layout.size, 4 + 16 * 1024 * 1024);
    match flexible_layout::<OsRotCerts>(16 * 1024 * 1024 + 1) {
        Err(OsRotError::TooLarge { requested }) => {
            assert_eq!(requested, 16 * 1024 * 1024 + 1)
        }
        other => panic!("unexpected {:?}", other),
    }
}
