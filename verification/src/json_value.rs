//! JSON values returned by the orchestrator's services, as far as the
//! library reads them, and the base64 form in which bytes travel.

use vstd::prelude::*;

verus! {

/// A JSON value as the library reads it. Numbers are kept when they are
/// integers; an array is kept as its items read as unsigned integers.
#[derive(Debug, Clone)]
pub enum JsonValue {
    Null,
    Bool(bool),
    /// An integer that fits in `i64`.
    Integer(i64),
    /// An integer above `i64::MAX`.
    Unsigned(u64),
    /// A number with a fractional part.
    Float,
    Text(String),
    /// An array: each item as an unsigned integer, or `None` for an item
    /// that is not one.
    Array(Vec<Option<u64>>),
    Object,
}

/// The value as `u64`, if it is a non-negative integer.
pub open spec fn json_as_u64(v: JsonValue) -> Option<u64> {
    match v {
        JsonValue::Integer(i) => if i >= 0 { Some(i as u64) } else { None },
        JsonValue::Unsigned(u) => Some(u),
        _ => None,
    }
}

impl JsonValue {
    /// The value as `u64`, if it is a non-negative integer.
    pub fn as_u64(&self) -> (r: Option<u64>)
        ensures
            r == json_as_u64(*self),
    {
        match self {
            JsonValue::Integer(i) => if *i >= 0 {
                Some(*i as u64)
            } else {
                None
            },
            JsonValue::Unsigned(u) => Some(*u),
            _ => None,
        }
    }
}

/// The bytes of an array of numbers: every item must be a number no larger
/// than 255; otherwise the first offending item (`Some(n)` for a number too
/// large, `None` for an item that is not a number).
pub open spec fn bytes_from_items(items: Seq<Option<u64>>) -> Result<Seq<u8>, Option<u64>>
    decreases items.len(),
{
    if items.len() == 0 {
        Ok(Seq::empty())
    } else {
        match bytes_from_items(items.drop_last()) {
            Err(e) => Err(e),
            Ok(b) => match items.last() {
                Some(n) => if n <= 255 {
                    Ok(b.push(n as u8))
                } else {
                    Err(Some(n))
                },
                None => Err(None),
            },
        }
    }
}

/// The bytes of an array of numbers (see `bytes_from_items`).
pub fn byte_items(items: &Vec<Option<u64>>) -> (r: Result<Vec<u8>, Option<u64>>)
    ensures
        match (r, bytes_from_items(items@)) {
            (Ok(b), Ok(c)) => b@ == c,
            (Err(e), Err(f)) => e == f,
            _ => false,
        },
{
    let mut out: Vec<u8> = Vec::new();
    let mut i: usize = 0;
    while i < items.len()
        invariant
            0 <= i <= items.len(),
            bytes_from_items(items@.take(i as int)) == Ok::<Seq<u8>, Option<u64>>(out@),
        decreases items.len() - i,
    {
        proof {
            assert(items@.take(i + 1).drop_last() =~= items@.take(i as int));
        }
        match items[i] {
            Some(n) => {
                if n <= 255 {
                    out.push(n as u8);
                } else {
                    proof {
                        lemma_bytes_error_stays(items@, i as int + 1);
                    }
                    return Err(Some(n));
                }
            },
            None => {
                proof {
                    lemma_bytes_error_stays(items@, i as int + 1);
                }
                return Err(None);
            },
        }
        i = i + 1;
    }
    assert(items@.take(items@.len() as int) =~= items@);
    Ok(out)
}

/// Once a prefix fails, the whole array fails with the same item.
proof fn lemma_bytes_error_stays(items: Seq<Option<u64>>, k: int)
    requires
        0 <= k <= items.len(),
        bytes_from_items(items.take(k)) is Err,
    ensures
        bytes_from_items(items) == bytes_from_items(items.take(k)),
    decreases items.len() - k,
{
    if k < items.len() {
        assert(items.take(k + 1).drop_last() =~= items.take(k));
        lemma_bytes_error_stays(items, k + 1);
    } else {
        assert(items.take(k) =~= items);
    }
}

/// The standard base64 alphabet: `A`-`Z`, `a`-`z`, `0`-`9`, `+`, `/`.
pub open spec fn base64_digit(n: int) -> char {
    if n < 26 {
        ('A' as int + n) as char
    } else if n < 52 {
        ('a' as int + (n - 26)) as char
    } else if n < 62 {
        ('0' as int + (n - 52)) as char
    } else if n == 62 {
        '+'
    } else {
        '/'
    }
}

/// The standard base64 encoding of bytes with padding: each group of three
/// bytes as four characters of six bits each, and a last group of one or
/// two bytes filled out with `=`.
pub open spec fn base64_standard_encoding(b: Seq<u8>) -> Seq<char>
    decreases b.len(),
{
    if b.len() == 0 {
        Seq::empty()
    } else {
        let x = b[0] as int;
        let y = if b.len() > 1 { b[1] as int } else { 0 };
        let z = if b.len() > 2 { b[2] as int } else { 0 };
        if b.len() == 1 {
            seq![base64_digit(x / 4), base64_digit((x % 4) * 16), '=', '=']
        } else if b.len() == 2 {
            seq![base64_digit(x / 4), base64_digit((x % 4) * 16 + y / 16), base64_digit((y % 16) * 4), '=']
        } else {
            seq![
                base64_digit(x / 4),
                base64_digit((x % 4) * 16 + y / 16),
                base64_digit((y % 16) * 4 + z / 64),
                base64_digit(z % 64),
            ] + base64_standard_encoding(b.subrange(3, b.len() as int))
        }
    }
}

/// Whether a text is the standard base64 encoding of some bytes.
pub open spec fn is_standard_encoding(s: Seq<char>) -> bool {
    exists|b: Seq<u8>| s == #[trigger] base64_standard_encoding(b)
}

/// Name for what decoding a text as standard base64 gives: the bytes, or
/// the message of the decoding error.
pub uninterp spec fn base64_standard_decoding(s: Seq<char>) -> Result<Seq<u8>, Seq<char>>;

/// `base64::engine::general_purpose::STANDARD.encode`: the padded standard
/// base64 text of the bytes, four characters for every three bytes or part
/// of three. The crate panics when that length does not fit in `usize`.
#[verifier::external_body]
pub(crate) fn base64_encode(bytes: &[u8]) -> (r: String)
    requires
        (bytes@.len() / 3) * 4 + (if bytes@.len() % 3 > 0 { 4int } else { 0int }) <= usize::MAX,
    ensures
        r@ == base64_standard_encoding(bytes@),
        r@.len() == (bytes@.len() / 3) * 4 + (if bytes@.len() % 3 > 0 { 4int } else { 0int }),
{
    base64::Engine::encode(&base64::engine::general_purpose::STANDARD, bytes)
}

/// `base64::engine::general_purpose::STANDARD.decode`, with the error
/// rendered as its message. A function of the text alone; the standard
/// encoding of some bytes decodes to those bytes.
#[verifier::external_body]
pub(crate) fn base64_decode(s: &str) -> (r: Result<Vec<u8>, String>)
    ensures
        match (r, base64_standard_decoding(s@)) {
            (Ok(b), Ok(c)) => b@ == c,
            (Err(e), Err(m)) => e@ == m,
            _ => false,
        },
        r is Ok || !is_standard_encoding(s@),
        r is Ok && is_standard_encoding(s@) ==> base64_standard_encoding(r->Ok_0@) == s@,
{
    match base64::Engine::decode(&base64::engine::general_purpose::STANDARD, s) {
        Ok(b) => Ok(b),
        Err(e) => Err(e.to_string()),
    }
}

} // verus!
