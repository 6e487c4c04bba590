//! Identifiers: version-4 UUIDs made from random bytes, and the parsing of
//! UUID text.
use vstd::prelude::*;
use crate::util::text::{trim, trim_str, is_white_space};

verus! {

/// A lowercase hexadecimal digit.
pub open spec fn is_lower_hex(c: char) -> bool {
    ('0' <= c && c <= '9') || ('a' <= c && c <= 'f')
}

/// A hexadecimal digit in either case.
pub open spec fn is_hex(c: char) -> bool {
    ('0' <= c && c <= '9') || ('a' <= c && c <= 'f') || ('A' <= c && c <= 'F')
}

/// `c` with an ASCII capital letter turned into its small letter.
pub open spec fn ascii_lower(c: char) -> char {
    if 'A' <= c && c <= 'Z' {
        ((c as u32) + 32) as char
    } else {
        c
    }
}

/// The lowercase hexadecimal digit for `n` in 0..16.
pub open spec fn hex_char(n: int) -> char {
    if n < 10 {
        (48 + n) as char
    } else {
        (87 + n) as char
    }
}

/// Whether `i` is one of the four hyphen positions of a hyphenated UUID.
pub open spec fn is_hyphen_position(i: int) -> bool {
    i == 8 || i == 13 || i == 18 || i == 23
}

/// The position in hyphenated text of the `j`-th of the 32 digits.
pub open spec fn digit_position(j: int) -> int {
    if j < 8 {
        j
    } else if j < 12 {
        j + 1
    } else if j < 16 {
        j + 2
    } else if j < 20 {
        j + 3
    } else {
        j + 4
    }
}

/// Which of the 32 digits stands at position `i` of hyphenated text.
pub open spec fn digit_index(i: int) -> int {
    if i < 8 {
        i
    } else if i < 13 {
        i - 1
    } else if i < 18 {
        i - 2
    } else if i < 23 {
        i - 3
    } else {
        i - 4
    }
}

/// The canonical text of a UUID: 36 characters, hyphens at positions 8, 13,
/// 18 and 23, lowercase hexadecimal digits elsewhere.
pub open spec fn is_canonical_uuid(s: Seq<char>) -> bool {
    &&& s.len() == 36
    &&& forall|i: int|
        0 <= i < 36 ==> if is_hyphen_position(i) {
            s[i] == '-'
        } else {
            is_lower_hex(#[trigger] s[i])
        }
}

/// The hyphenated form: 36 characters, hyphens at positions 8, 13, 18 and
/// 23, hexadecimal digits of either case elsewhere.
pub open spec fn is_hyphenated(s: Seq<char>) -> bool {
    &&& s.len() == 36
    &&& forall|i: int|
        0 <= i < 36 ==> if is_hyphen_position(i) {
            s[i] == '-'
        } else {
            is_hex(#[trigger] s[i])
        }
}

/// The 32 digits of hyphenated text.
pub open spec fn hyphenated_digits(s: Seq<char>) -> Seq<char> {
    Seq::new(32, |j: int| s[digit_position(j)])
}

/// The `urn:uuid:` prefix.
pub open spec fn urn_prefix() -> Seq<char> {
    seq!['u', 'r', 'n', ':', 'u', 'u', 'i', 'd', ':']
}

/// The 32 digits of a UUID written in one of the forms `Uuid::parse_str`
/// accepts: 32 digits; the hyphenated form; the hyphenated form in braces;
/// `urn:uuid:` (in either case) before the hyphenated form.
pub open spec fn uuid_digits(s: Seq<char>) -> Option<Seq<char>> {
    if s.len() == 32 && forall|i: int| 0 <= i < 32 ==> is_hex(#[trigger] s[i]) {
        Some(s)
    } else if is_hyphenated(s) {
        Some(hyphenated_digits(s))
    } else if s.len() == 38 && s[0] == '{' && s[37] == '}' && is_hyphenated(s.subrange(1, 37)) {
        Some(hyphenated_digits(s.subrange(1, 37)))
    } else if s.len() == 45 && (forall|i: int|
        0 <= i < 9 ==> ascii_lower(#[trigger] s[i]) == urn_prefix()[i]) && is_hyphenated(
        s.subrange(9, 45),
    ) {
        Some(hyphenated_digits(s.subrange(9, 45)))
    } else {
        None
    }
}

/// The canonical text of the UUID with these 32 digits.
pub open spec fn canonical_of(digits: Seq<char>) -> Seq<char> {
    Seq::new(
        36,
        |i: int|
            if is_hyphen_position(i) {
                '-'
            } else {
                ascii_lower(digits[digit_index(i)])
            },
    )
}

/// What `Uuid::parse_str` followed by `to_string` gives for a text.
pub open spec fn uuid_text(s: Seq<char>) -> Option<Seq<char>> {
    match uuid_digits(s) {
        Some(d) => Some(canonical_of(d)),
        None => None,
    }
}

/// The 16 bytes with the version set to 4 (random) and the variant to the
/// RFC 4122 one, as `uuid::Builder::from_random_bytes` sets them.
pub open spec fn v4_bytes(b: Seq<u8>) -> Seq<u8> {
    b.update(6, (b[6] & 0x0f) | 0x40).update(8, (b[8] & 0x3f) | 0x80)
}

/// The 32 lowercase hexadecimal digits of 16 bytes, high half first.
pub open spec fn bytes_hex(b: Seq<u8>) -> Seq<char> {
    Seq::new(
        32,
        |j: int|
            if j % 2 == 0 {
                hex_char((b[j / 2] >> 4u8) as int)
            } else {
                hex_char((b[j / 2] & 0x0f) as int)
            },
    )
}

/// The canonical text of the version-4 UUID made from 16 random bytes.
pub open spec fn uuid_v4_text(b: Seq<u8>) -> Seq<char> {
    canonical_of(bytes_hex(v4_bytes(b)))
}

/// `uuid::Uuid::parse_str`, then `to_string` on success: the digits of the
/// accepted forms, lowercased and hyphenated (`parser.rs` `try_parse`,
/// `parse_hyphenated`, `decode_hex32`; `fmt.rs` `Display`).
#[verifier::external_body]
fn uuid_parse_canonical(s: &str) -> (r: Option<String>)
    ensures
        r is Some <==> uuid_text(s@) is Some,
        r matches Some(t) ==> uuid_text(s@) == Some(t@),
{
    match ::uuid::Uuid::parse_str(s) {
        Ok(u) => Some(u.to_string()),
        Err(_) => None,
    }
}

/// `uuid::Builder::from_random_bytes(bytes).into_uuid()`, then `to_string`:
/// the bytes with version and variant set, lowercased and hyphenated. It
/// draws nothing itself and does not fail.
#[verifier::external_body]
fn uuid_v4_from_bytes(bytes: [u8; 16]) -> (r: String)
    ensures
        r@ == uuid_v4_text(bytes@),
{
    ::uuid::Builder::from_random_bytes(bytes).into_uuid().to_string()
}

proof fn lemma_hex_char(n: int)
    requires
        0 <= n < 16,
    ensures
        is_lower_hex(hex_char(n)),
        ascii_lower(hex_char(n)) == hex_char(n),
{
}

/// Text made by `canonical_of` from hexadecimal digits is canonical.
proof fn lemma_canonical_of_is_canonical(d: Seq<char>)
    requires
        d.len() == 32,
        forall|j: int| 0 <= j < 32 ==> is_hex(#[trigger] d[j]),
    ensures
        is_canonical_uuid(canonical_of(d)),
{
    let c = canonical_of(d);
    assert forall|i: int| 0 <= i < 36 && !is_hyphen_position(i) implies is_lower_hex(
        #[trigger] c[i],
    ) by {
        let x = d[digit_index(i)];
        assert(is_hex(x));
        if 'A' <= x && x <= 'F' {
            assert((x as u32) + 32 >= 97 && (x as u32) + 32 <= 102);
        }
    }
}

/// Every text `Uuid::parse_str` accepts comes back canonical.
pub proof fn lemma_uuid_text_is_canonical(s: Seq<char>)
    requires
        uuid_text(s) is Some,
    ensures
        is_canonical_uuid(uuid_text(s)->0),
{
    let d = uuid_digits(s)->0;
    if s.len() == 32 && forall|i: int| 0 <= i < 32 ==> is_hex(#[trigger] s[i]) {
    } else if is_hyphenated(s) {
        assert forall|j: int| 0 <= j < 32 implies is_hex(#[trigger] d[j]) by {
            assert(!is_hyphen_position(digit_position(j)));
            assert(is_hex(s[digit_position(j)]));
        }
    } else if s.len() == 38 && s[0] == '{' && s[37] == '}' && is_hyphenated(s.subrange(1, 37)) {
        let h = s.subrange(1, 37);
        assert forall|j: int| 0 <= j < 32 implies is_hex(#[trigger] d[j]) by {
            assert(!is_hyphen_position(digit_position(j)));
            assert(is_hex(h[digit_position(j)]));
        }
    } else {
        let h = s.subrange(9, 45);
        assert forall|j: int| 0 <= j < 32 implies is_hex(#[trigger] d[j]) by {
            assert(!is_hyphen_position(digit_position(j)));
            assert(is_hex(h[digit_position(j)]));
        }
    }
    lemma_canonical_of_is_canonical(d);
}

/// Canonical text is accepted and comes back unchanged.
pub proof fn lemma_canonical_uuid_text(s: Seq<char>)
    requires
        is_canonical_uuid(s),
    ensures
        uuid_text(s) == Some(s),
{
    assert forall|i: int| 0 <= i < 36 && !is_hyphen_position(i) implies is_hex(#[trigger] s[i]) by {
        assert(is_lower_hex(s[i]));
    }
    assert(is_hyphenated(s));
    let d = hyphenated_digits(s);
    assert(canonical_of(d) =~= s) by {
        assert forall|i: int| 0 <= i < 36 implies #[trigger] canonical_of(d)[i] == s[i] by {
            if !is_hyphen_position(i) {
                assert(digit_position(digit_index(i)) == i);
                assert(is_lower_hex(s[i]));
            }
        }
    }
}

/// The canonical text of the version-4 UUID made from `bytes`: the version
/// digit is `4` and the variant digit one of `8`, `9`, `a`, `b`.
pub proof fn lemma_v4_text_shape(bytes: Seq<u8>)
    requires
        bytes.len() == 16,
    ensures
        is_canonical_uuid(uuid_v4_text(bytes)),
        uuid_v4_text(bytes)[14] == '4',
        uuid_v4_text(bytes)[19] == '8' || uuid_v4_text(bytes)[19] == '9' || uuid_v4_text(
            bytes,
        )[19] == 'a' || uuid_v4_text(bytes)[19] == 'b',
{
    let v = v4_bytes(bytes);
    let h = bytes_hex(v);
    assert forall|j: int| 0 <= j < 32 implies is_hex(#[trigger] h[j]) by {
        let b = v[j / 2];
        assert((b >> 4u8) < 16 && (b & 0x0f) < 16) by (bit_vector);
        if j % 2 == 0 {
            lemma_hex_char((b >> 4u8) as int);
        } else {
            lemma_hex_char((b & 0x0f) as int);
        }
    }
    lemma_canonical_of_is_canonical(h);
    let b6 = bytes[6];
    let b8 = bytes[8];
    assert((((b6 & 0x0f) | 0x40) >> 4u8) == 4) by (bit_vector);
    assert(8 <= (((b8 & 0x3f) | 0x80) >> 4u8) <= 11) by (bit_vector);
    assert(v[6] == (b6 & 0x0f) | 0x40);
    assert(v[8] == (b8 & 0x3f) | 0x80);
    assert(h[12] == hex_char((v[6] >> 4u8) as int));
    assert(h[16] == hex_char((v[8] >> 4u8) as int));
    lemma_hex_char((v[6] >> 4u8) as int);
    lemma_hex_char((v[8] >> 4u8) as int);
}

/// The canonical text of the UUID written in `value` (surrounding white space
/// ignored), or `None` when it is not a UUID: 32 hexadecimal digits, the
/// hyphenated form, the hyphenated form in braces, or `urn:uuid:` before it,
/// digits of either case. What comes back is canonical, and canonical text
/// comes back as it was.
pub fn parse_uuid(value: &str) -> (r: Option<String>)
    ensures
        r is Some <==> uuid_text(trim(value@)) is Some,
        r matches Some(t) ==> uuid_text(trim(value@)) == Some(t@),
        r matches Some(t) ==> is_canonical_uuid(t@),
        is_canonical_uuid(trim(value@)) ==> (r matches Some(t) && t@ == trim(value@)),
{
    let trimmed = trim_str(value);
    let r = uuid_parse_canonical(trimmed);
    proof {
        if uuid_text(trimmed@) is Some {
            lemma_uuid_text_is_canonical(trimmed@);
        }
        if is_canonical_uuid(trimmed@) {
            lemma_canonical_uuid_text(trimmed@);
        }
    }
    r
}

/// The identifier made from 16 random bytes: the canonical text of the
/// version-4 UUID they give (version digit `4`, variant digit one of `8`,
/// `9`, `a`, `b`).
pub fn new_uuid(random_bytes: [u8; 16]) -> (r: String)
    ensures
        r@ == uuid_v4_text(random_bytes@),
        is_canonical_uuid(r@),
        r@[14] == '4',
        r@[19] == '8' || r@[19] == '9' || r@[19] == 'a' || r@[19] == 'b',
{
    proof {
        lemma_v4_text_shape(random_bytes@);
    }
    uuid_v4_from_bytes(random_bytes)
}

/// Canonical UUID text has no surrounding white space and is accepted as it
/// is, so `parse_uuid` gives every identifier made by `new_uuid` back
/// unchanged.
pub proof fn lemma_canonical_uuid_parses_back(id: Seq<char>)
    requires
        is_canonical_uuid(id),
    ensures
        trim(id) == id,
        uuid_text(trim(id)) == Some(id),
{
    assert(is_lower_hex(id[0]));
    assert(is_lower_hex(id[35]));
    assert(!is_white_space(id[0]));
    assert(!is_white_space(id.last()));
    crate::util::text::lemma_trim_of_trimmed(id);
    lemma_canonical_uuid_text(id);
}

} // verus!
