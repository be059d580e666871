use ekk::auth::{
    auth_requirement, chaskey_permute, mac, mac_message, times_two, verify, verify_message,
    AuthBuilder, AuthKey, AuthRequirement, AuthTag, RawKey, MAC_TAG_SIZE,
};

#[test]
fn test_raw_key() {
    let raw = RawKey::from_bytes([0x42; 16]);
    assert_eq!(raw.as_bytes(), &[0x42; 16]);
}

#[test]
fn test_raw_key_from_slice() {
    let bytes = [0x42u8; 16];
    let raw = RawKey::from_slice(&bytes).unwrap();
    assert_eq!(raw.as_bytes(), &bytes);

    // Wrong length
    assert!(RawKey::from_slice(&[0u8; 15]).is_none());
    assert!(RawKey::from_slice(&[0u8; 17]).is_none());
}

#[test]
fn test_auth_key_creation() {
    let raw = RawKey::from_bytes([0u8; 16]);
    let key = AuthKey::new(&raw);
    assert_eq!(key.k, [0, 0, 0, 0]);
}

#[test]
fn test_one_shot_mac() {
    let raw = RawKey::from_bytes([0x42; 16]);
    let key = AuthKey::new(&raw);

    let tag1 = mac(&key, b"Hello, world!");
    let tag2 = mac(&key, b"Hello, world!");

    // Same input produces same tag
    assert!(tag1.verify(&tag2));

    // Different input produces different tag
    let tag3 = mac(&key, b"Hello, World!");
    assert!(!tag1.verify(&tag3));
}

#[test]
fn test_incremental_mac() {
    let raw = RawKey::from_bytes([0x42; 16]);
    let key = AuthKey::new(&raw);

    // One-shot
    let tag1 = mac(&key, b"Hello, world!");

    // Incremental (same data)
    let tag2 = AuthBuilder::new(&key)
        .update(b"Hello, ")
        .update(b"world!")
        .finalize();

    assert!(tag1.verify(&tag2));
}

#[test]
fn test_incremental_mac_chunked() {
    let raw = RawKey::from_bytes([0x42; 16]);
    let key = AuthKey::new(&raw);

    // Test with data that spans multiple blocks
    let data = b"This is a longer message that spans multiple 16-byte blocks for testing.";

    let tag1 = mac(&key, data);

    // Incremental with arbitrary chunk sizes
    let tag2 = AuthBuilder::new(&key)
        .update(&data[..10])
        .update(&data[10..25])
        .update(&data[25..50])
        .update(&data[50..])
        .finalize();

    assert!(tag1.verify(&tag2));
}

#[test]
fn test_empty_message() {
    let raw = RawKey::from_bytes([0x42; 16]);
    let key = AuthKey::new(&raw);

    let tag = mac(&key, b"");
    // Should produce a valid tag for empty message
    assert_eq!(tag.as_bytes().len(), MAC_TAG_SIZE);
}

#[test]
fn test_verify_function() {
    let raw = RawKey::from_bytes([0x42; 16]);
    let key = AuthKey::new(&raw);

    let tag = mac(&key, b"test message");
    assert!(verify(&key, b"test message", &tag));
    assert!(!verify(&key, b"wrong message", &tag));
}

#[test]
fn test_message_authentication() {
    let raw = RawKey::from_bytes([0x42; 16]);
    let key = AuthKey::new(&raw);

    let sender_id = 5u8;
    let msg_type = 0x04u8;
    let data = b"proposal data";

    let tag = mac_message(&key, sender_id, msg_type, data);
    assert!(verify_message(&key, sender_id, msg_type, data, &tag));

    // Wrong sender_id should fail
    assert!(!verify_message(&key, 6, msg_type, data, &tag));

    // Wrong msg_type should fail
    assert!(!verify_message(&key, sender_id, 0x05, data, &tag));
}

#[test]
fn test_auth_requirement() {
    assert_eq!(auth_requirement(0x04), AuthRequirement::Required);
    assert_eq!(auth_requirement(0x05), AuthRequirement::Required);
    assert_eq!(auth_requirement(0x08), AuthRequirement::Required);
    assert_eq!(auth_requirement(0x01), AuthRequirement::NotRequired);
    assert_eq!(auth_requirement(0x02), AuthRequirement::NotRequired);
    assert_eq!(auth_requirement(0x99), AuthRequirement::NotRequired);
}

#[test]
fn test_different_keys() {
    let raw1 = RawKey::from_bytes([0x42; 16]);
    let raw2 = RawKey::from_bytes([0x43; 16]);

    let key1 = AuthKey::new(&raw1);
    let key2 = AuthKey::new(&raw2);

    let tag1 = mac(&key1, b"message");
    let tag2 = mac(&key2, b"message");

    // Different keys produce different tags
    assert!(!tag1.verify(&tag2));
}

#[test]
fn test_known_vector() {
    // Test with all-zero key and empty message
    let raw = RawKey::from_bytes([0u8; 16]);
    let key = AuthKey::new(&raw);

    let tag = mac(&key, b"");

    // The tag should be deterministic
    let tag2 = mac(&key, b"");
    assert!(tag.verify(&tag2));
}

#[test]
fn mac_gives_exact_tags() {
    let key = AuthKey::new(&RawKey::from_bytes([0x42; 16]));
    assert_eq!(mac(&key, b"Hello, world!").as_bytes(), &[64, 152, 249, 48, 154, 42, 68, 163]);

    let zero = AuthKey::new(&RawKey::from_bytes([0u8; 16]));
    assert_eq!(mac(&zero, b"").as_bytes(), &[123, 201, 46, 111, 246, 161, 101, 8]);

    let mut counting = [0u8; 16];
    for i in 0..16 {
        counting[i] = i as u8;
    }
    let key = AuthKey::new(&RawKey::from_bytes(counting));
    // a message of exactly one block takes the subkey for complete blocks
    assert_eq!(mac(&key, &counting).as_bytes(), &[112, 75, 147, 180, 36, 67, 12, 227]);

    let mut long = [0u8; 40];
    for i in 0..40 {
        long[i] = i as u8;
    }
    assert_eq!(mac(&key, &long).as_bytes(), &[197, 83, 154, 45, 93, 223, 7, 164]);
}

#[test]
fn subkeys_are_doubled_with_reduction() {
    let key = AuthKey::new(&RawKey::from_bytes([0x80; 16]));
    assert_eq!(key.k, [0x8080_8080; 4]);
    assert_eq!(key.k1, [0x0101_0187, 0x0101_0101, 0x0101_0101, 0x0101_0101]);
    assert_eq!(times_two(&[1, 0, 0, 0]), [2, 0, 0, 0]);
    assert_eq!(times_two(&[0x8000_0000, 0, 0, 0]), [0, 1, 0, 0]);
    assert_eq!(times_two(&[0, 0, 0, 0x8000_0000]), [0x87, 0, 0, 0]);
}

#[test]
fn permutation_gives_exact_state() {
    let mut state = [1u32, 2, 3, 4];
    chaskey_permute(&mut state);
    assert_eq!(state, [2377461506, 2324485001, 3059442466, 2963278760]);
}

#[test]
fn tag_comparison_tells_tags_apart() {
    let a = AuthTag::from_bytes([1, 2, 3, 4, 5, 6, 7, 8]);
    let b = AuthTag::from_bytes([1, 2, 3, 4, 5, 6, 7, 8]);
    let c = AuthTag::from_bytes([1, 2, 3, 4, 5, 6, 7, 9]);
    assert!(a.verify(&b));
    assert!(!a.verify(&c));
    assert!(!c.verify(&a));
}

#[test]
fn zeroize_wipes_key_material() {
    let mut raw = RawKey::from_bytes([0x42; 16]);
    let mut key = AuthKey::new(&raw);
    raw.zeroize();
    assert_eq!(raw.as_bytes(), &[0u8; 16]);
    key.zeroize();
    assert_eq!(key.k, [0; 4]);
    assert_eq!(key.k1, [0; 4]);
    assert_eq!(key.k2, [0; 4]);
}

#[test]
fn update_with_a_completed_block_differs_from_one_shot() {
    // A block completed by a later piece is absorbed at once, so the tag
    // of a message that ends on a block boundary depends on how it is fed.
    let key = AuthKey::new(&RawKey::from_bytes([0x42; 16]));
    let data = [7u8; 16];
    let whole = mac(&key, &data);
    let pieces = AuthBuilder::new(&key).update(&data[..8]).update(&data[8..]).finalize();
    assert!(!whole.verify(&pieces));
}
