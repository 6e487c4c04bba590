use ventalibre_server::util::text::{contains_char, is_white_space_char, strip_prefix_str, trim_str};
use ventalibre_server::util::uuid::{new_uuid, parse_uuid};
use ventalibre_server::util::password::{hash_password, verify_password};

#[test]
fn trim_removes_unicode_white_space_on_both_sides() {
    assert_eq!(trim_str("  hola \t\n"), "hola");
    assert_eq!(trim_str("\u{3000}\u{00A0}a b\u{2028}"), "a b");
    assert_eq!(trim_str("   "), "");
    assert_eq!(trim_str(""), "");
    assert_eq!(trim_str("x"), "x");
    for c in ['\u{9}', '\u{D}', ' ', '\u{85}', '\u{1680}', '\u{200A}', '\u{202F}', '\u{205F}'] {
        assert!(is_white_space_char(c));
        assert_eq!(is_white_space_char(c), c.is_whitespace());
    }
    for c in ['a', '\u{200B}', '\u{180E}', '_'] {
        assert!(!is_white_space_char(c));
        assert_eq!(is_white_space_char(c), c.is_whitespace());
    }
}

#[test]
fn contains_and_strip_prefix() {
    assert!(contains_char("ana@example.com", '@'));
    assert!(!contains_char("ana.example.com", '@'));
    assert!(!contains_char("", '@'));
    assert_eq!(strip_prefix_str("Bearer abc", "Bearer "), Some("abc"));
    assert_eq!(strip_prefix_str("Bearer", "Bearer "), None);
    assert_eq!(strip_prefix_str("bearer abc", "Bearer "), None);
    assert_eq!(strip_prefix_str("ñandú", "ñ"), Some("andú"));
}

#[test]
fn parse_uuid_gives_canonical_text() {
    let canonical = "67e55044-10b1-426f-9247-bb680e5fe0c8";
    assert_eq!(parse_uuid(canonical), Some(canonical.to_string()));
    assert_eq!(parse_uuid("  67e55044-10b1-426f-9247-bb680e5fe0c8\n"), Some(canonical.to_string()));
    assert_eq!(parse_uuid("67E55044-10B1-426F-9247-BB680E5FE0C8"), Some(canonical.to_string()));
    assert_eq!(parse_uuid("67e5504410b1426f9247bb680e5fe0c8"), Some(canonical.to_string()));
    assert_eq!(parse_uuid("{67e55044-10b1-426f-9247-bb680e5fe0c8}"), Some(canonical.to_string()));
    assert_eq!(
        parse_uuid("urn:uuid:67e55044-10b1-426f-9247-bb680e5fe0c8"),
        Some(canonical.to_string())
    );
    assert_eq!(parse_uuid("not-a-uuid"), None);
    assert_eq!(parse_uuid(""), None);
    assert_eq!(parse_uuid("67e55044-10b1-426f-9247-bb680e5fe0c"), None);
}

#[test]
fn new_uuid_is_version_four_and_parses_back() {
    let a = new_uuid([0u8; 16]);
    let b = new_uuid([0xffu8; 16]);
    assert_eq!(a, "00000000-0000-4000-8000-000000000000");
    assert_eq!(b, "ffffffff-ffff-4fff-bfff-ffffffffffff");
    let c = new_uuid([
        0x67, 0xe5, 0x50, 0x44, 0x10, 0xb1, 0x42, 0x6f, 0x92, 0x47, 0xbb, 0x68, 0x0e, 0x5f, 0xe0, 0xc8,
    ]);
    assert_eq!(c, "67e55044-10b1-426f-9247-bb680e5fe0c8");
    for id in [&a, &b, &c] {
        assert_eq!(id.len(), 36);
        let chars: Vec<char> = id.chars().collect();
        assert_eq!(chars[8], '-');
        assert_eq!(chars[13], '-');
        assert_eq!(chars[18], '-');
        assert_eq!(chars[23], '-');
        assert_eq!(chars[14], '4');
        assert!(matches!(chars[19], '8' | '9' | 'a' | 'b'));
        assert_eq!(parse_uuid(id), Some(id.to_string()));
    }
}

#[test]
fn hashed_password_verifies() {
    let h = hash_password("secreto1").unwrap();
    assert!(h.starts_with("$2b$10$"));
    assert_eq!(h.len(), 60);
    assert_eq!(verify_password("secreto1", &h), Ok(true));
    assert_eq!(verify_password("secreto2", &h), Ok(false));
}

#[test]
fn unreadable_hash_is_an_error() {
    assert_eq!(verify_password("secreto1", "not a bcrypt hash"), Err(()));
    assert_eq!(
        verify_password("password", "$2a$04$UuTkLRZZ6QofpDOlMz32MuuxEHA43WOemOYHPz6.SjsVsyO1tDU96"),
        Ok(true)
    );
}
