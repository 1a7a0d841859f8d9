//! Identifiers: time-ordered version 7 UUIDs, their text form and parsing.
//!
//! A UUID is held as its 16 bytes in network order.
use uuid::Uuid;
use vstd::prelude::*;

verus! {

/// Why a text was not accepted as a UUID.
#[derive(Debug, Clone, PartialEq, Eq)]
pub enum IdError {
    /// The text (kept here) is not a UUID.
    InvalidUuid(String),
}

/// Whether `b` is a version 7 UUID of the RFC 9562 variant: version nibble 7
/// in byte 6, variant bits `10` at the top of byte 8.
pub open spec fn is_uuid_v7(b: Seq<u8>) -> bool {
    &&& b.len() == 16
    &&& b[6] / 16 == 7
    &&& b[8] / 64 == 2
}

/// The lowercase hexadecimal digit of `n` (`0 <= n < 16`).
pub open spec fn hex_digit(n: int) -> char {
    "0123456789abcdef"@[n]
}

/// The two lowercase hexadecimal digits of a byte.
pub open spec fn hex_pair(b: u8) -> Seq<char> {
    seq![hex_digit((b / 16) as int), hex_digit((b % 16) as int)]
}

/// The lowercase hexadecimal digits of `bytes`, two per byte.
pub open spec fn hex_of(bytes: Seq<u8>) -> Seq<char>
    decreases bytes.len(),
{
    if bytes.len() == 0 {
        Seq::empty()
    } else {
        hex_of(bytes.drop_last()) + hex_pair(bytes.last())
    }
}

/// The hyphenated lowercase text form of a 16-byte UUID: 8-4-4-4-12 hex digits.
pub open spec fn hyphenated(b: Seq<u8>) -> Seq<char> {
    hex_of(b.subrange(0, 4)) + "-"@ + hex_of(b.subrange(4, 6)) + "-"@ + hex_of(b.subrange(6, 8)) + "-"@
        + hex_of(b.subrange(8, 10)) + "-"@ + hex_of(b.subrange(10, 16))
}

/// The bytes of an optional UUID.
pub open spec fn option_bytes(o: Option<[u8; 16]>) -> Option<Seq<u8>> {
    match o {
        Some(b) => Some(b@),
        None => None,
    }
}

/// The bytes `Uuid::parse_str` reads from `text`, if it accepts it.
pub uninterp spec fn spec_uuid_parse(text: Seq<char>) -> Option<Seq<u8>>;

/// Calls `Uuid::now_v7` and returns its bytes. The bytes hold the current
/// time and random bits; the contract states only what its source shows of
/// every outcome, the version and variant bits.
#[verifier::external_body]
fn uuid_now_v7_bytes() -> (b: [u8; 16])
    ensures
        is_uuid_v7(b@),
{
    *Uuid::now_v7().as_bytes()
}

/// The lengths of the text forms `Uuid::parse_str` accepts: simple (32),
/// hyphenated (36), braced (38) and URN (45).
pub open spec fn accepted_uuid_length(n: nat) -> bool {
    n == 32 || n == 36 || n == 38 || n == 45
}

/// Calls `Uuid::parse_str` and returns the parsed bytes, `None` for its
/// error. The contract names the outcome and states what the source shows:
/// only text of an accepted length, all of it ASCII (so its characters are
/// its bytes), parses; and the hyphenated lowercase text of any 16 bytes
/// parses back to those bytes.
#[verifier::external_body]
fn uuid_parse_bytes(text: &str) -> (res: Option<[u8; 16]>)
    ensures
        option_bytes(res) == spec_uuid_parse(text@),
        res matches Some(_) ==> accepted_uuid_length(text@.len()),
        forall|b: Seq<u8>| #![trigger hyphenated(b)] b.len() == 16 ==> (text@ == hyphenated(b) ==> option_bytes(res) == Some(b)),
{
    match Uuid::parse_str(text) {
        Ok(u) => Some(*u.as_bytes()),
        Err(_) => None,
    }
}

/// A new version 7 (time-ordered) UUID.
pub fn new_uuid_v7() -> (id: [u8; 16])
    ensures
        is_uuid_v7(id@),
{
    uuid_now_v7_bytes()
}

/// Parses the text form of a UUID.
pub fn parse_uuid(input: &str) -> (res: Result<[u8; 16], IdError>)
    ensures
        res matches Ok(b) ==> spec_uuid_parse(input@) == Some(b@),
        res is Err <==> spec_uuid_parse(input@) is None,
        res is Ok ==> accepted_uuid_length(input@.len()),
        res matches Err(IdError::InvalidUuid(s)) ==> s@ == input@,
        forall|b: Seq<u8>| #![trigger hyphenated(b)] b.len() == 16 ==> (input@ == hyphenated(b) ==> (res matches Ok(r) && r@ == b)),
{
    match uuid_parse_bytes(input) {
        Some(b) => Ok(b),
        None => Err(IdError::InvalidUuid(input.to_owned())),
    }
}

/// Appends the hex digits of `bytes[from..to]` to `s`.
fn append_hex(s: &mut String, bytes: &[u8; 16], from: usize, to: usize)
    requires
        from <= to <= 16,
    ensures
        final(s)@ == old(s)@ + hex_of(bytes@.subrange(from as int, to as int)),
{
    let digits = "0123456789abcdef";
    proof {
        reveal_strlit("0123456789abcdef");
    }
    let ghost start = s@;
    let mut i = from;
    assert(bytes@.subrange(from as int, from as int) =~= Seq::<u8>::empty());
    assert(start + hex_of(Seq::<u8>::empty()) =~= start);
    while i < to
        invariant
            from <= i <= to <= 16,
            digits@ == "0123456789abcdef"@,
            digits@.len() == 16,
            s@ == start + hex_of(bytes@.subrange(from as int, i as int)),
        decreases to - i,
    {
        let b = bytes[i];
        let high = (b / 16) as usize;
        let low = (b % 16) as usize;
        s.append(digits.substring_char(high, high + 1));
        s.append(digits.substring_char(low, low + 1));
        proof {
            let prefix = bytes@.subrange(from as int, i as int);
            let next = bytes@.subrange(from as int, i + 1);
            assert(next.drop_last() =~= prefix);
            assert(next.last() == b);
            assert(hex_pair(b) =~= digits@.subrange(high as int, high + 1) + digits@.subrange(low as int, low + 1));
        }
        i = i + 1;
    }
}

/// The hyphenated lowercase text form of a UUID (what `Uuid`'s `Display` prints).
pub fn uuid_to_string(bytes: &[u8; 16]) -> (s: String)
    ensures
        s@ == hyphenated(bytes@),
{
    let mut s = String::new();
    append_hex(&mut s, bytes, 0, 4);
    s.append("-");
    append_hex(&mut s, bytes, 4, 6);
    s.append("-");
    append_hex(&mut s, bytes, 6, 8);
    s.append("-");
    append_hex(&mut s, bytes, 8, 10);
    s.append("-");
    append_hex(&mut s, bytes, 10, 16);
    s
}

} // verus!
