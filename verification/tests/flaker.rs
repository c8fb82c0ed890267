use flaker::{Endianness, FlakeError, Flaker};

fn le_bytes(id: u128) -> [u8; 16] {
    id.to_le_bytes()
}

#[test]
fn ids_change_quickly() {
    let mut f1 = Flaker::new([0, 1, 2, 3, 4, 5], Endianness::LittleEndian);

    let id3 = f1.get_id().unwrap();
    let id4 = f1.get_id().unwrap();

    println!("{} < {}", id3, id4);

    assert!(id3 < id4);
}

#[test]
fn ids_increase_when_time_advances() {
    let mut f = Flaker::new_at_time([9, 8, 7, 6, 5, 4], Endianness::LittleEndian, 1_000);
    let id1 = f.get_id_at_time(2_000).unwrap();
    let id2 = f.get_id_at_time(2_050).unwrap();
    assert!(id1 < id2);
}

#[test]
fn ids_increase_within_one_millisecond() {
    let mut f = Flaker::new_at_time([9, 8, 7, 6, 5, 4], Endianness::LittleEndian, 1_000);
    let id1 = f.get_id_at_time(2_000).unwrap();
    let id2 = f.get_id_at_time(2_000).unwrap();
    assert!(id1 < id2);
    assert_eq!(id2, id1 + 1);
}

#[test]
fn clock_regression_is_rejected_and_state_is_untouched() {
    let mut f = Flaker::new_at_time([1, 1, 2, 2, 3, 3], Endianness::LittleEndian, 1_000);
    let id1 = f.get_id_at_time(2_000).unwrap();
    assert_eq!(le_bytes(id1)[0..2], [0, 0]);

    let err = f.get_id_at_time(1_500).unwrap_err();
    assert_eq!(err, FlakeError::ClockIsRunningBackwards);

    // The failed call left both the recorded time and the counter alone: a
    // retry in the last generated millisecond continues the same sequence.
    let id2 = f.get_id_at_time(2_000).unwrap();
    let bytes = le_bytes(id2);
    assert_eq!(bytes[0..2], [1, 0]);
    assert_eq!(bytes[8..16], 2_000u64.to_le_bytes());
    assert_eq!(id2, id1 + 1);
}

#[test]
fn endianness_normalization_round_trips() {
    let mut big = Flaker::new_at_time([10, 20, 30, 40, 50, 60], Endianness::BigEndian, 500);
    let mut little = Flaker::new_at_time([60, 50, 40, 30, 20, 10], Endianness::LittleEndian, 500);
    let id_big = big.get_id_at_time(700).unwrap();
    let id_little = little.get_id_at_time(700).unwrap();
    assert_eq!(id_big, id_little);
    assert_eq!(le_bytes(id_big)[2..8], [60, 50, 40, 30, 20, 10]);
}

#[test]
fn counter_resets_when_the_millisecond_advances() {
    let mut f = Flaker::new_at_time([1, 2, 3, 4, 5, 6], Endianness::LittleEndian, 100);
    let _ = f.get_id_at_time(100).unwrap();
    let _ = f.get_id_at_time(100).unwrap();
    let id = f.get_id_at_time(101).unwrap();
    assert_eq!(le_bytes(id)[0..2], [0, 0]);
}

#[test]
fn concrete_layout_scenario() {
    let mut f = Flaker::new_at_time([0, 1, 2, 3, 4, 5], Endianness::LittleEndian, 999_999);

    let id1 = f.get_id_at_time(1_000_000).unwrap();
    let bytes1 = le_bytes(id1);
    assert_eq!(bytes1[0..2], [0, 0]);
    assert_eq!(bytes1[2..8], [0, 1, 2, 3, 4, 5]);
    assert_eq!(bytes1[8..16], 1_000_000u64.to_le_bytes());

    let id2 = f.get_id_at_time(1_000_000).unwrap();
    let bytes2 = le_bytes(id2);
    assert_eq!(bytes2[0..2], [1, 0]);
    assert_eq!(bytes2[2..16], bytes1[2..16]);
    assert!(id2 > id1);
}

#[test]
fn identifier_vector_is_stored_little_endian() {
    let mut f = Flaker::new_from_identifier(vec![11, 22, 33, 44, 55, 66]);
    let id = f.get_id().unwrap();
    assert_eq!(le_bytes(id)[2..8], [11, 22, 33, 44, 55, 66]);
}

#[test]
fn counter_wraps_after_sixty_five_thousand_five_hundred_thirty_six_ids() {
    let mut f = Flaker::new_at_time([0, 0, 0, 0, 0, 0], Endianness::LittleEndian, 42);
    let mut last: u128 = 0;
    for _ in 0..65_535 {
        last = f.get_id_at_time(42).unwrap();
    }
    assert_eq!(le_bytes(last)[0..2], [255, 255]);

    // One more burst call in the same millisecond wraps the counter to zero,
    // so the identifier falls back below the previous one.
    let wrapped = f.get_id_at_time(42).unwrap();
    assert_eq!(le_bytes(wrapped)[0..2], [0, 0]);
    assert!(wrapped < last);
}

#[test]
fn generation_works_at_the_largest_representable_time() {
    let mut f = Flaker::new_at_time([7, 7, 7, 7, 7, 7], Endianness::LittleEndian, u64::MAX);
    let id1 = f.get_id_at_time(u64::MAX).unwrap();
    let id2 = f.get_id_at_time(u64::MAX).unwrap();
    assert_eq!(le_bytes(id1)[8..16], u64::MAX.to_le_bytes());
    assert!(id1 < id2);
}
