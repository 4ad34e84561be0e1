use mdeno::crypto::{fast_uuid_v4, hex_char, random_uuid, Crypto};

#[test]
fn test_random_uuid_format() {
    let uuid = random_uuid().unwrap();
    assert_eq!(uuid.len(), 36);
    assert_eq!(&uuid[8..9], "-");
    assert_eq!(&uuid[13..14], "-");
    assert_eq!(&uuid[18..19], "-");
    assert_eq!(&uuid[23..24], "-");

    // Check version 4
    let version_char = uuid.chars().nth(14).unwrap();
    assert_eq!(version_char, '4');
}

#[test]
fn test_random_uuid_uniqueness() {
    let uuid1 = random_uuid().unwrap();
    let uuid2 = random_uuid().unwrap();
    assert_ne!(uuid1, uuid2);
}

#[test]
fn uuid_of_given_bytes() {
    let zeros = [0u8; 16];
    assert_eq!(fast_uuid_v4(&zeros), "00000000-0000-4000-8000-000000000000");
    let ones = [0xffu8; 16];
    assert_eq!(fast_uuid_v4(&ones), "ffffffff-ffff-4fff-bfff-ffffffffffff");
    let counted = [
        0x01, 0x23, 0x45, 0x67, 0x89, 0xab, 0xcd, 0xef, 0x10, 0x32, 0x54, 0x76, 0x98, 0xba, 0xdc,
        0xfe,
    ];
    assert_eq!(fast_uuid_v4(&counted), "01234567-89ab-4def-9032-547698badcfe");
}

#[test]
fn hex_digits() {
    let digits: Vec<char> = (0u8..16).map(hex_char).collect();
    let text: String = digits.into_iter().collect();
    assert_eq!(text, "0123456789abcdef");
}

#[test]
fn crypto_object_gives_uuids() {
    let crypto = Crypto::new();
    let uuid = crypto.random_uuid().unwrap();
    assert_eq!(uuid.len(), 36);
    assert_eq!(uuid.chars().nth(14), Some('4'));
    let variant = uuid.chars().nth(19).unwrap();
    assert!(matches!(variant, '8' | '9' | 'a' | 'b'));
    let other = Crypto::default().random_uuid().unwrap();
    assert_ne!(uuid, other);
}
