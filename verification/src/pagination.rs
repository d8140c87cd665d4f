use vstd::prelude::*;
use vstd::string::StringExecFns;
use crate::content::Like;
use crate::errors::DomainError;

verus! {

/// The character of a six-bit value in the standard base64 alphabet.
pub open spec fn base64_char(v: int) -> char {
    if v < 26 {
        (65 + v) as char
    } else if v < 52 {
        (97 + v - 26) as char
    } else if v < 62 {
        (48 + v - 52) as char
    } else if v == 62 {
        '+'
    } else {
        '/'
    }
}

/// The text that the standard base64 engine (with padding) writes for bytes:
/// each group of three bytes becomes four characters of six bits each; a
/// last group of one or two bytes is padded with `=`.
pub open spec fn base64_text(b: Seq<u8>) -> Seq<char>
    decreases b.len(),
{
    let x0 = if b.len() > 0 { b[0] as int } else { 0 };
    let x1 = if b.len() > 1 { b[1] as int } else { 0 };
    let x2 = if b.len() > 2 { b[2] as int } else { 0 };
    if b.len() == 0 {
        Seq::empty()
    } else if b.len() == 1 {
        seq![base64_char(x0 / 4), base64_char((x0 % 4) * 16), '=', '=']
    } else if b.len() == 2 {
        seq![base64_char(x0 / 4), base64_char((x0 % 4) * 16 + x1 / 16), base64_char((x1 % 16) * 4), '=']
    } else {
        seq![
            base64_char(x0 / 4),
            base64_char((x0 % 4) * 16 + x1 / 16),
            base64_char((x1 % 16) * 4 + x2 / 64),
            base64_char(x2 % 64),
        ] + base64_text(b.subrange(3, b.len() as int))
    }
}

/// What the standard base64 engine (with padding) decodes a text to: the
/// bytes whose padded standard text it is (there is at most one), or nothing
/// for a text that is no such text.
pub open spec fn base64_decoded(s: Seq<char>) -> Option<Seq<u8>> {
    if exists|b: Seq<u8>| base64_text(b) == s {
        Some(choose|b: Seq<u8>| base64_text(b) == s)
    } else {
        None
    }
}

proof fn lemma_base64_char(a: int, b: int)
    requires
        0 <= a < 64,
        0 <= b < 64,
    ensures
        base64_char(a) != '=',
        base64_char(a) == base64_char(b) ==> a == b,
{
}

proof fn lemma_group_bytes(x0: int, x1: int, x2: int, y0: int, y1: int, y2: int)
    requires
        0 <= x0 < 256,
        0 <= x1 < 256,
        0 <= x2 < 256,
        0 <= y0 < 256,
        0 <= y1 < 256,
        0 <= y2 < 256,
        x0 / 4 == y0 / 4,
        (x0 % 4) * 16 + x1 / 16 == (y0 % 4) * 16 + y1 / 16,
        (x1 % 16) * 4 + x2 / 64 == (y1 % 16) * 4 + y2 / 64,
        x2 % 64 == y2 % 64,
    ensures
        x0 == y0,
        x1 == y1,
        x2 == y2,
{
}

/// The text of some bytes is at least four characters long, unless there
/// are none.
proof fn lemma_base64_len(b: Seq<u8>)
    ensures
        b.len() == 0 <==> base64_text(b).len() == 0,
        b.len() > 0 ==> base64_text(b).len() >= 4,
{
}

/// Different bytes have different texts.
pub proof fn lemma_base64_injective(a: Seq<u8>, b: Seq<u8>)
    requires
        base64_text(a) == base64_text(b),
    ensures
        a == b,
    decreases a.len(),
{
    let t = base64_text(a);
    lemma_base64_len(a);
    lemma_base64_len(b);
    if a.len() == 0 {
        assert(b.len() == 0);
        assert(a =~= b);
    } else {
        let (x0, x1, x2) = (a[0] as int, if a.len() > 1 { a[1] as int } else { 0 }, if a.len() > 2 { a[2] as int } else { 0 });
        let (y0, y1, y2) = (b[0] as int, if b.len() > 1 { b[1] as int } else { 0 }, if b.len() > 2 { b[2] as int } else { 0 });
        lemma_base64_char(x0 / 4, y0 / 4);
        lemma_base64_char((x0 % 4) * 16 + x1 / 16, (y0 % 4) * 16 + y1 / 16);
        lemma_base64_char((x1 % 16) * 4 + x2 / 64, (y1 % 16) * 4 + y2 / 64);
        lemma_base64_char(x2 % 64, y2 % 64);
        lemma_base64_char((x0 % 4) * 16, (y0 % 4) * 16);
        lemma_base64_char((x1 % 16) * 4, (y1 % 16) * 4);
        lemma_base64_char((x0 % 4) * 16, (y0 % 4) * 16 + y1 / 16);
        lemma_base64_char((x0 % 4) * 16 + x1 / 16, (y0 % 4) * 16);
        lemma_base64_char((x1 % 16) * 4, (y1 % 16) * 4 + y2 / 64);
        lemma_base64_char((x1 % 16) * 4 + x2 / 64, (y1 % 16) * 4);
        // The padding tells how many bytes the last group holds.
        assert(t[2] == '=' <==> a.len() == 1);
        assert(base64_text(b)[2] == '=' <==> b.len() == 1);
        assert(t[3] == '=' <==> a.len() <= 2);
        assert(base64_text(b)[3] == '=' <==> b.len() <= 2);
        if a.len() == 1 {
            assert(x0 == y0) by {
                lemma_group_bytes(x0, 0, 0, y0, 0, 0);
            }
            assert(a =~= b);
        } else if a.len() == 2 {
            lemma_group_bytes(x0, x1, 0, y0, y1, 0);
            assert(a =~= b);
        } else {
            let u = base64_text(b);
            assert(b.len() >= 3);
            assert(t[0] == base64_char(x0 / 4) && u[0] == base64_char(y0 / 4));
            assert(t[1] == base64_char((x0 % 4) * 16 + x1 / 16) && u[1] == base64_char((y0 % 4) * 16 + y1 / 16));
            assert(t[2] == base64_char((x1 % 16) * 4 + x2 / 64) && u[2] == base64_char((y1 % 16) * 4 + y2 / 64));
            assert(t[3] == base64_char(x2 % 64) && u[3] == base64_char(y2 % 64));
            lemma_group_bytes(x0, x1, x2, y0, y1, y2);
            let ra = a.subrange(3, a.len() as int);
            let rb = b.subrange(3, b.len() as int);
            assert(base64_text(ra) =~= t.subrange(4, t.len() as int));
            assert(base64_text(rb) =~= base64_text(b).subrange(4, t.len() as int));
            lemma_base64_injective(ra, rb);
            assert(a =~= seq![a[0], a[1], a[2]] + ra);
            assert(b =~= seq![b[0], b[1], b[2]] + rb);
        }
    }
}

/// Calls `base64::engine::general_purpose::STANDARD.encode`: the result is
/// the padded standard text `base64_text`.
#[verifier::external_body]
fn base64_encode(bytes: &[u8]) -> (r: String)
    requires
        bytes@.len() <= usize::MAX / 2,
    ensures
        r@ == base64_text(bytes@),
{
    base64::Engine::encode(&base64::engine::general_purpose::STANDARD, bytes)
}

/// Calls `base64::engine::general_purpose::STANDARD.decode`: with canonical
/// padding required and trailing bits refused, it accepts exactly the padded
/// standard texts, and gives the bytes that a text encodes.
#[verifier::external_body]
fn base64_decode(s: &str) -> (r: Option<Vec<u8>>)
    ensures
        match r {
            Some(v) => base64_text(v@) == s@,
            None => !exists|b: Seq<u8>| base64_text(b) == s@,
        },
{
    match base64::Engine::decode(&base64::engine::general_purpose::STANDARD, s) {
        Ok(v) => Some(v),
        Err(_) => None,
    }
}

/// Whether a character may occur in a padded standard base64 text: a letter,
/// a digit, `+`, `/` or `=`.
pub open spec fn base64_symbol(c: char) -> bool {
    let v = c as int;
    (65 <= v <= 90) || (97 <= v <= 122) || (48 <= v <= 57) || c == '+' || c == '/' || c == '='
}

proof fn lemma_char_symbol(v: int)
    requires
        0 <= v < 64,
    ensures
        base64_symbol(base64_char(v)),
{
}

proof fn lemma_base64_symbols(b: Seq<u8>)
    ensures
        forall|i: int| 0 <= i < base64_text(b).len() ==> base64_symbol(#[trigger] base64_text(b)[i]),
    decreases b.len(),
{
    let t = base64_text(b);
    if b.len() > 0 {
        let x0 = b[0] as int;
        let x1 = if b.len() > 1 { b[1] as int } else { 0 };
        let x2 = if b.len() > 2 { b[2] as int } else { 0 };
        lemma_char_symbol(x0 / 4);
        lemma_char_symbol((x0 % 4) * 16);
        lemma_char_symbol((x0 % 4) * 16 + x1 / 16);
        lemma_char_symbol((x1 % 16) * 4);
        lemma_char_symbol((x1 % 16) * 4 + x2 / 64);
        lemma_char_symbol(x2 % 64);
        if b.len() >= 3 {
            let r = b.subrange(3, b.len() as int);
            lemma_base64_symbols(r);
            assert forall|i: int| 0 <= i < t.len() implies base64_symbol(#[trigger] t[i]) by {
                if i >= 4 {
                    assert(t[i] == base64_text(r)[i - 4]);
                }
            }
        }
    }
}

/// A cursor text holding a character that base64 never writes (such as `-`)
/// is refused.
pub proof fn law_foreign_character_refused(s: Seq<char>, i: int)
    requires
        0 <= i < s.len(),
        !base64_symbol(s[i]),
    ensures
        cursor_bytes_of(Some(s)) is None,
{
    if exists|b: Seq<u8>| base64_text(b) == s {
        let b = choose|b: Seq<u8>| base64_text(b) == s;
        lemma_base64_symbols(b);
        assert(base64_symbol(base64_text(b)[i]));
    }
}

/// The position in a user's likes after which the next page starts: the time
/// (nanoseconds) and the identifier of the last like shown.
#[derive(Debug, Clone, Copy, PartialEq, Eq, Structural)]
pub struct PaginationCursor {
    pub t: i64,
    pub id: u128,
}

/// What an optional cursor text decodes to: nothing without a text, the
/// bytes of its serialized form, or an error for text that is not base64.
pub open spec fn cursor_bytes_of(cursor: Option<Seq<char>>) -> Option<Option<Seq<u8>>> {
    match cursor {
        None => Some(None),
        Some(s) => match base64_decoded(s) {
            Some(b) => Some(Some(b)),
            None => None,
        },
    }
}

impl PaginationCursor {
    /// The serialized form of an optional cursor: nothing without a text, its
    /// base64-decoded bytes otherwise; text that is not base64 is refused as
    /// an invalid cursor ("Bad Base64").
    pub fn decode_opt(cursor_str: Option<String>) -> (r: Result<Option<Vec<u8>>, DomainError>)
        ensures
            match cursor_bytes_of(match cursor_str { Some(s) => Some(s@), None => None }) {
                Some(None) => r matches Ok(None),
                Some(Some(b)) => r matches Ok(Some(v)) && v@ == b,
                None => r matches Err(DomainError::InvalidCursor(m)) && m@ == "Bad Base64"@,
            },
    {
        match cursor_str {
            None => Ok(None),
            Some(s) => match base64_decode(s.as_str()) {
                Some(b) => {
                    proof {
                        let c = choose|c: Seq<u8>| base64_text(c) == s@;
                        lemma_base64_injective(b@, c);
                    }
                    Ok(Some(b))
                },
                None => Err(DomainError::InvalidCursor(String::from_str("Bad Base64"))),
            },
        }
    }

    /// The cursor text of a cursor's serialized form.
    pub fn encode_bytes(serialized: &Vec<u8>) -> (r: String)
        requires
            serialized@.len() <= usize::MAX / 2,
        ensures
            r@ == base64_text(serialized@),
            cursor_bytes_of(Some(r@)) == Some(Some(serialized@)),
    {
        let r = base64_encode(serialized.as_slice());
        proof {
            let c = choose|c: Seq<u8>| base64_text(c) == r@;
            assert(base64_text(serialized@) == r@);
            lemma_base64_injective(serialized@, c);
        }
        r
    }
}

/// A like as stored, with its row identifier.
#[derive(Debug)]
pub struct LikeRecord {
    pub id: u128,
    pub like: Like,
}

/// How many rows to ask for a page of `limit` likes: one more, to learn
/// whether another page follows.
pub fn fetch_limit(limit: usize) -> (n: usize)
    requires
        limit < usize::MAX,
    ensures
        n == limit + 1,
{
    limit + 1
}

/// The page of at most `limit` rows: when more rows came, the page is cut to
/// `limit` and the cursor points after its last row.
pub open spec fn page_cursor(rows: Seq<LikeRecord>, limit: usize) -> Option<PaginationCursor> {
    if rows.len() > limit {
        Some(PaginationCursor { t: rows[limit - 1].like.created_at, id: rows[limit - 1].id })
    } else {
        None
    }
}

/// Cuts the rows fetched (at most `limit + 1`) to a page, and gives the
/// cursor of the next page when there is one.
pub fn page_of(rows: Vec<LikeRecord>, limit: usize) -> (r: (Vec<LikeRecord>, Option<PaginationCursor>))
    requires
        rows@.len() > limit ==> limit > 0,
    ensures
        r.1 == page_cursor(rows@, limit),
        rows@.len() > limit ==> r.0@ == rows@.take(limit as int),
        rows@.len() <= limit ==> r.0@ == rows@,
{
    let mut rows = rows;
    if rows.len() > limit {
        let last = &rows[limit - 1];
        let cursor = PaginationCursor { t: last.like.created_at, id: last.id };
        rows.truncate(limit);
        (rows, Some(cursor))
    } else {
        (rows, None)
    }
}

/// A page never holds more than `limit` likes, and a next page is announced
/// exactly when more rows than that came.
pub proof fn law_page_bounded(rows: Seq<LikeRecord>, limit: usize)
    requires
        rows.len() > limit ==> limit > 0,
    ensures
        page_cursor(rows, limit) is Some <==> rows.len() > limit,
{
}

/// The cursor of the next page names the last like shown on this page: its
/// time and its identifier.
pub proof fn law_cursor_after_last_shown(rows: Seq<LikeRecord>, limit: usize)
    requires
        rows.len() > limit,
        limit > 0,
    ensures
        ({
            let page = rows.take(limit as int);
            page_cursor(rows, limit) == Some(PaginationCursor { t: page.last().like.created_at, id: page.last().id })
        }),
{
}

} // verus!
