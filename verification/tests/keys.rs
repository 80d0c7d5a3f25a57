use std::collections::HashSet;

use serial_key_manager::formatter::format_key;
use serial_key_manager::generate_key;

#[test]
fn test_generate_key() {
    let key = generate_key();
    println!("Generated Key: {}", key);
    assert_eq!(key.len(), 23); // 4 segments of 5 chars each + 3 hyphens
    for segment in key.split('-') {
        assert_eq!(segment.len(), 5);
    }
}

#[test]
fn generated_key_has_the_key_form() {
    for _ in 0..200 {
        let key = generate_key();
        let chars: Vec<char> = key.chars().collect();
        assert_eq!(chars.len(), 23);
        for (i, c) in chars.iter().enumerate() {
            if i == 5 || i == 11 || i == 17 {
                assert_eq!(*c, '-');
            } else {
                assert!(c.is_ascii_uppercase() || c.is_ascii_digit());
            }
        }
        assert_eq!(key.split('-').count(), 4);
    }
}

#[test]
fn generated_keys_do_not_repeat() {
    let mut seen = HashSet::new();
    for _ in 0..10_000 {
        assert!(seen.insert(generate_key()));
    }
    assert_eq!(seen.len(), 10_000);
}

#[test]
fn format_key_groups_and_capitalises() {
    assert_eq!(format_key(b"abcdefghijklmnopqrst"), "ABCDE-FGHIJ-KLMNO-PQRST");
    assert_eq!(format_key(b"a1B2c3D4e5F6g7H8i9J0"), "A1B2C-3D4E5-F6G7H-8I9J0");
    assert_eq!(format_key(b"UVWXYZuvwxyz01234567"), "UVWXY-ZUVWX-YZ012-34567");
}

#[test]
fn format_key_keeps_capitals_and_digits() {
    assert_eq!(format_key(b"ZZZZZ99999AAAAA00000"), "ZZZZZ-99999-AAAAA-00000");
}

#[test]
fn format_key_changes_small_letters_only() {
    // the bytes next to the small letters stay as they are
    assert_eq!(format_key(b"`{az@[AZ/:09`{az@[AZ"), "`{AZ@-[AZ/:-09`{A-Z@[AZ");
}
