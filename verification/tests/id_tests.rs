use vmm::id::{Id, IdError};
use vmm::net::{get_bridge_name, get_mac, get_tap_name};

fn sample() -> Id {
    Id::from_bytes([0, 1, 2, 3, 4, 5, 6, 7, 8, 9, 10, 11, 12, 13, 14, 15])
}

#[test]
fn id_from_bytes_reads_big_endian() {
    assert_eq!(sample().0, 0x000102030405060708090a0b0c0d0e0fu128);
    assert_eq!(Id::from_bytes([0u8; 16]).0, 0);
    assert_eq!(Id::from_bytes([255u8; 16]).0, u128::MAX);
}

#[test]
fn id_to_bytes_writes_big_endian() {
    assert_eq!(
        Id(0x000102030405060708090a0b0c0d0e0fu128).to_bytes(),
        [0, 1, 2, 3, 4, 5, 6, 7, 8, 9, 10, 11, 12, 13, 14, 15]
    );
    assert_eq!(Id(1).to_bytes(), [0, 0, 0, 0, 0, 0, 0, 0, 0, 0, 0, 0, 0, 0, 0, 1]);
}

#[test]
fn id_text_is_base62_of_its_bytes() {
    assert_eq!(sample().to_string(), "xYyfzn3XTOUjzBXTmlU4n7");
    assert_eq!(Id(0).to_string(), "8chF7tm8n9klfT5MGD24n7");
    assert_eq!(Id(u128::MAX).to_string(), "FEPVEmZHaJUXLxAiWQ48aF");
}

#[test]
fn id_round_trips_through_its_text() {
    for value in [0u128, 1, 61, 62, 255, 256, 0x000102030405060708090a0b0c0d0e0f, u128::MAX] {
        let id = Id(value);
        assert_eq!(Id::from_str(&id.to_string()), Ok(id));
        assert_eq!(Id::try_from(id.to_string()), Ok(id));
    }
}

#[test]
fn distinct_ids_have_distinct_texts() {
    assert_ne!(Id(0).to_string(), Id(1).to_string());
    assert_ne!(Id(1).to_string(), Id(1 << 64).to_string());
}

#[test]
fn id_from_str_refuses_bad_characters() {
    assert_eq!(Id::from_str("abc-"), Err(IdError::BadCharacter));
    assert_eq!(Id::from_str("xYyfzn3XTOUjzBXTmlU4n/"), Err(IdError::BadCharacter));
}

#[test]
fn id_from_str_refuses_other_lengths() {
    assert_eq!(Id::from_str(""), Err(IdError::BadLength));
    assert_eq!(Id::from_str("JsoUl8"), Err(IdError::BadLength));
    assert_eq!(Id::from_str("abc"), Err(IdError::BadLength));
}

#[test]
fn new_ids_differ() {
    let a = Id::new().expect("random bytes");
    let b = Id::new().expect("random bytes");
    assert_ne!(a, b);
}

#[test]
fn mac_is_made_of_the_last_three_bytes() {
    assert_eq!(get_mac(&sample()), "52:54:00:0d:0e:0f");
    assert_eq!(get_mac(&Id(0)), "52:54:00:00:00:00");
    assert_eq!(get_mac(&Id(0xabcdef)), "52:54:00:ab:cd:ef");
}

#[test]
fn device_names_end_in_the_last_four_characters() {
    let text = sample().to_string();
    assert_eq!(get_tap_name(&sample()), format!("vmmtap-{}", &text[text.len() - 4..]));
    assert_eq!(get_tap_name(&sample()), "vmmtap-U4n7");
    assert_eq!(get_bridge_name(&sample()), "vmmbr-U4n7");
    assert_eq!(get_bridge_name(&Id(u128::MAX)), "vmmbr-48aF");
}
