use vstd::prelude::*;
use vstd::arithmetic::power::pow;

verus! {

/// The hexadecimal digit (lower case) of a value in `0..16`.
pub open spec fn hex_digit(n: int) -> char {
    if n < 10 {
        (48 + n) as char
    } else {
        (97 + n - 10) as char
    }
}

/// The `i`-th hexadecimal digit of `v`, counting from the most significant one.
pub open spec fn nibble(v: u128, i: int) -> int {
    (v as int / pow(16, (31 - i) as nat)) % 16
}

/// The 32 lower-case hexadecimal digits of `v`, most significant first.
pub open spec fn uuid_simple_text(v: u128) -> Seq<char> {
    Seq::new(32, |i: int| hex_digit(nibble(v, i)))
}

/// The hyphenated text of the UUID whose big-endian value is `v`
/// (`8-4-4-4-12` lower-case hexadecimal digits).
pub open spec fn uuid_text(v: u128) -> Seq<char> {
    let s = uuid_simple_text(v);
    s.subrange(0, 8) + seq!['-'] + s.subrange(8, 12) + seq!['-'] + s.subrange(12, 16) + seq!['-']
        + s.subrange(16, 20) + seq!['-'] + s.subrange(20, 32)
}

/// The value of a hexadecimal digit (either case).
pub open spec fn hex_char_value(c: char) -> Option<int> {
    let v = c as int;
    if 48 <= v <= 57 {
        Some(v - 48)
    } else if 97 <= v <= 102 {
        Some(v - 87)
    } else if 65 <= v <= 70 {
        Some(v - 55)
    } else {
        None
    }
}

/// The value of a text of hexadecimal digits, most significant first;
/// nothing when some character is not one.
pub open spec fn hex_digits_value(s: Seq<char>) -> Option<int>
    decreases s.len(),
{
    if s.len() == 0 {
        Some(0)
    } else {
        match (hex_digits_value(s.drop_last()), hex_char_value(s.last())) {
            (Some(h), Some(d)) => Some(h * 16 + d),
            _ => None,
        }
    }
}

/// The value of a hyphenated UUID text (`8-4-4-4-12` hexadecimal digits).
pub open spec fn hyphenated_value(s: Seq<char>) -> Option<int> {
    if s.len() == 36 && s[8] == '-' && s[13] == '-' && s[18] == '-' && s[23] == '-' {
        hex_digits_value(s.subrange(0, 8) + s.subrange(9, 13) + s.subrange(14, 18) + s.subrange(19, 23)
            + s.subrange(24, 36))
    } else {
        None
    }
}

/// A character in ASCII lower case.
pub open spec fn ascii_lower(c: char) -> char {
    if 65 <= c as int <= 90 { ((c as int) + 32) as char } else { c }
}

/// What `uuid::Uuid::parse_str` gives for a text, as the UUID's big-endian
/// value: 32 hexadecimal digits, the hyphenated form, the hyphenated form in
/// braces, or the hyphenated form after `urn:uuid:` (in any case); digits in
/// either case. Anything else is refused.
pub open spec fn uuid_parsed(s: Seq<char>) -> Option<u128> {
    let v = if s.len() == 32 {
        hex_digits_value(s)
    } else if s.len() == 36 {
        hyphenated_value(s)
    } else if s.len() == 38 && s[0] == '{' && s[37] == '}' {
        hyphenated_value(s.subrange(1, 37))
    } else if s.len() == 45 && s.subrange(0, 9).map_values(|c: char| ascii_lower(c)) == "urn:uuid:"@ {
        hyphenated_value(s.subrange(9, 45))
    } else {
        None
    };
    match v {
        Some(x) => Some(x as u128),
        None => None,
    }
}

/// Calls `uuid::Uuid::to_string` (its `Display`, the hyphenated lower-case
/// form) on the UUID whose big-endian value is `v`.
#[verifier::external_body]
pub(crate) fn uuid_to_string(v: u128) -> (s: String)
    ensures
        s@ == uuid_text(v),
{
    uuid::Uuid::from_u128(v).to_string()
}

/// Calls `uuid::Uuid::parse_str`: it accepts the four forms of `uuid_parsed`
/// and gives their value; a text in the hyphenated form that `Display` writes
/// parses back to its value.
#[verifier::external_body]
pub(crate) fn parse_uuid(s: &str) -> (r: Option<u128>)
    ensures
        r == uuid_parsed(s@),
        forall|v: u128| #[trigger] uuid_text(v) == s@ ==> r == Some(v),
{
    match uuid::Uuid::parse_str(s) {
        Ok(u) => Some(u.as_u128()),
        Err(_) => None,
    }
}

/// The identifier of a content item (a UUID, held as its big-endian value).
#[derive(Debug, Clone, Copy, PartialEq, Eq, Hash, Default, Structural)]
pub struct ContentId(pub u128);

/// The identifier of a user (a UUID, held as its big-endian value).
#[derive(Debug, Clone, Copy, PartialEq, Eq, Hash, Default, Structural)]
pub struct UserId(pub u128);

impl ContentId {
    /// The hyphenated text of the identifier, as `Display` writes it.
    pub fn to_text(&self) -> (s: String)
        ensures
            s@ == uuid_text(self.0),
    {
        uuid_to_string(self.0)
    }
}

impl UserId {
    /// The hyphenated text of the identifier, as `Display` writes it.
    pub fn to_text(&self) -> (s: String)
        ensures
            s@ == uuid_text(self.0),
    {
        uuid_to_string(self.0)
    }
}

} // verus!
