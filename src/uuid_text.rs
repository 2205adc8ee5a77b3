use vstd::prelude::*;

verus! {

/// An ASCII hexadecimal digit, in either case.
pub open spec fn is_hex_digit(c: char) -> bool {
    ('0' <= c && c <= '9') || ('a' <= c && c <= 'f') || ('A' <= c && c <= 'F')
}

pub open spec fn all_hex_digits(d: Seq<char>) -> bool {
    forall|i: int| 0 <= i < d.len() ==> is_hex_digit(#[trigger] d[i])
}

/// The lower-case form of a hexadecimal digit.
pub open spec fn hex_lower(c: char) -> char {
    if c == 'A' {
        'a'
    } else if c == 'B' {
        'b'
    } else if c == 'C' {
        'c'
    } else if c == 'D' {
        'd'
    } else if c == 'E' {
        'e'
    } else if c == 'F' {
        'f'
    } else {
        c
    }
}

/// The 32 digits of a hyphenated UUID (8-4-4-4-12), if `s` is one.
pub open spec fn hyphenated_digits(s: Seq<char>) -> Option<Seq<char>> {
    if s.len() == 36 && s[8] == '-' && s[13] == '-' && s[18] == '-' && s[23] == '-' {
        let d = s.subrange(0, 8) + s.subrange(9, 13) + s.subrange(14, 18) + s.subrange(19, 23)
            + s.subrange(24, 36);
        if all_hex_digits(d) {
            Some(d)
        } else {
            None
        }
    } else {
        None
    }
}

/// The prefix `urn:uuid:`, compared without regard to ASCII case.
pub open spec fn has_urn_prefix(s: Seq<char>) -> bool {
    &&& s.len() >= 9
    &&& (s[0] == 'u' || s[0] == 'U')
    &&& (s[1] == 'r' || s[1] == 'R')
    &&& (s[2] == 'n' || s[2] == 'N')
    &&& s[3] == ':'
    &&& (s[4] == 'u' || s[4] == 'U')
    &&& (s[5] == 'u' || s[5] == 'U')
    &&& (s[6] == 'i' || s[6] == 'I')
    &&& (s[7] == 'd' || s[7] == 'D')
    &&& s[8] == ':'
}

/// The 32 digits of a UUID written in one of the accepted textual forms:
/// simple (32 digits), hyphenated, braced (`{...}` round a hyphenated one),
/// or URN (`urn:uuid:` before a hyphenated one). Digits may be in either case.
pub open spec fn uuid_digits(s: Seq<char>) -> Option<Seq<char>> {
    if s.len() == 32 {
        if all_hex_digits(s) {
            Some(s)
        } else {
            None
        }
    } else if s.len() == 36 {
        hyphenated_digits(s)
    } else if s.len() == 38 {
        if s[0] == '{' && s[37] == '}' {
            hyphenated_digits(s.subrange(1, 37))
        } else {
            None
        }
    } else if s.len() == 45 {
        if has_urn_prefix(s) {
            hyphenated_digits(s.subrange(9, 45))
        } else {
            None
        }
    } else {
        None
    }
}

/// 32 digits laid out in the hyphenated 8-4-4-4-12 form.
pub open spec fn hyphenate(d: Seq<char>) -> Seq<char> {
    d.subrange(0, 8) + seq!['-'] + d.subrange(8, 12) + seq!['-'] + d.subrange(12, 16) + seq!['-']
        + d.subrange(16, 20) + seq!['-'] + d.subrange(20, 32)
}

/// The canonical text of the UUID that `s` writes: lower-case and hyphenated.
pub open spec fn canonical_uuid(s: Seq<char>) -> Option<Seq<char>> {
    match uuid_digits(s) {
        Some(d) => Some(hyphenate(d.map_values(|c: char| hex_lower(c)))),
        None => None,
    }
}

/// A UUID in canonical text.
pub open spec fn is_canonical_uuid(t: Seq<char>) -> bool {
    canonical_uuid(t) == Some(t)
}

/// Canonical text of a random (version 4, RFC variant) UUID.
pub open spec fn is_random_uuid_text(t: Seq<char>) -> bool {
    &&& is_canonical_uuid(t)
    &&& t[14] == '4'
    &&& (t[19] == '8' || t[19] == '9' || t[19] == 'a' || t[19] == 'b')
}

/// Relies on `uuid::Uuid::parse_str`, which accepts exactly the forms of
/// `uuid_digits`, and on `Display` for `uuid::Uuid`, which writes the
/// lower-case hyphenated form.
#[verifier::external_body]
pub(crate) fn parse_uuid(s: &str) -> (r: Option<String>)
    ensures
        match r {
            Some(t) => canonical_uuid(s@) == Some(t@),
            None => canonical_uuid(s@) is None,
        },
{
    match uuid::Uuid::parse_str(s) {
        Ok(u) => Some(u.to_string()),
        Err(_) => None,
    }
}

/// Relies on `uuid::Uuid::new_v4`, which draws 122 random bits and sets the
/// version (4) and variant (RFC) bits, and on `Display` for `uuid::Uuid`.
/// The operating system's random source is read; `new_v4` panics if it fails.
#[verifier::external_body]
pub(crate) fn new_v4_text() -> (r: String)
    ensures
        is_random_uuid_text(r@),
{
    uuid::Uuid::new_v4().to_string()
}

} // verus!
