//! Identifiers (the sixteen bytes of a UUID) and their lowercase hex text forms.
use vstd::prelude::*;

verus! {

/// The identifier of a user, a room, an image or a comment: the sixteen bytes of a UUID.
#[derive(Clone, Copy, Debug)]
pub struct Uid {
    pub bytes: [u8; 16],
}

impl View for Uid {
    type V = Seq<u8>;

    open spec fn view(&self) -> Seq<u8> {
        self.bytes@
    }
}

/// The lowercase hex digit for a value below sixteen.
pub open spec fn hex_digit(n: int) -> char {
    if n < 10 {
        (48 + n) as char
    } else {
        (87 + n) as char
    }
}

/// Two lowercase hex digits per byte, high nibble first.
pub open spec fn hex_lower(bytes: Seq<u8>) -> Seq<char> {
    Seq::new(
        2 * bytes.len(),
        |i: int|
            if i % 2 == 0 {
                hex_digit(bytes[i / 2] as int / 16)
            } else {
                hex_digit(bytes[i / 2] as int % 16)
            },
    )
}

/// The hyphenated text of a UUID: groups of 4, 2, 2, 2 and 6 bytes in hex, joined by `-`.
pub open spec fn uid_text(b: Seq<u8>) -> Seq<char> {
    hex_lower(b.subrange(0, 4)) + seq!['-'] + hex_lower(b.subrange(4, 6)) + seq!['-']
        + hex_lower(b.subrange(6, 8)) + seq!['-'] + hex_lower(b.subrange(8, 10)) + seq!['-']
        + hex_lower(b.subrange(10, 16))
}

/// Appends one character to a string.
///
/// Trusted: `String::push`. Claimed: the string's characters afterwards are those before,
/// followed by `c`, as its documentation states.
#[verifier::external_body]
pub(crate) fn push_char(s: &mut String, c: char)
    ensures
        final(s)@ == old(s)@.push(c),
{
    s.push(c);
}

fn hex_char(n: u8) -> (c: char)
    requires
        n < 16,
    ensures
        c == hex_digit(n as int),
{
    if n < 10 {
        (n + 48) as char
    } else {
        (n + 87) as char
    }
}

/// Appends the hex digits of `bytes[from..to]` to `s`.
pub(crate) fn push_hex(s: &mut String, bytes: &[u8], from: usize, to: usize)
    requires
        from <= to <= bytes@.len(),
    ensures
        final(s)@ == old(s)@ + hex_lower(bytes@.subrange(from as int, to as int)),
{
    let ghost start = s@;
    let mut i = from;
    assert(hex_lower(bytes@.subrange(from as int, from as int)) =~= Seq::<char>::empty());
    assert(start =~= start + hex_lower(bytes@.subrange(from as int, from as int)));
    while i < to
        invariant
            from <= i <= to <= bytes@.len(),
            s@ == start + hex_lower(bytes@.subrange(from as int, i as int)),
        decreases to - i,
    {
        let b = bytes[i];
        let hi = hex_char(b / 16);
        let lo = hex_char(b % 16);
        push_char(s, hi);
        push_char(s, lo);
        assert(hex_lower(bytes@.subrange(from as int, i + 1)) =~= hex_lower(
            bytes@.subrange(from as int, i as int),
        ).push(hi).push(lo));
        i = i + 1;
    }
}

/// The lowercase hex text of a byte string.
pub fn hex_string(bytes: &[u8]) -> (s: String)
    ensures
        s@ == hex_lower(bytes@),
{
    let mut s = String::new();
    push_hex(&mut s, bytes, 0, bytes.len());
    assert(bytes@.subrange(0, bytes@.len() as int) =~= bytes@);
    s
}

/// The hyphenated lowercase text of an identifier, written by `Display` of `uuid::Uuid`.
///
/// Trusted: `uuid::Uuid::to_string`. Claimed: the text is `uid_text` of the bytes (the
/// crate's `format_hyphenated` writes lowercase hex in groups of 4, 2, 2, 2 and 6 bytes),
/// and `uuid::Uuid::parse_str` gives the same bytes back for it (its hyphenated parser).
#[verifier::external_body]
pub(crate) fn uid_to_text(u: &Uid) -> (s: String)
    ensures
        s@ == uid_text(u.bytes@),
        uuid_parse(s@) == Some(u.bytes@),
{
    uuid::Uuid::from_bytes(u.bytes).to_string()
}

/// What `uuid::Uuid::parse_str` gives for a text: the sixteen bytes, or `None` on an error.
pub uninterp spec fn uuid_parse(text: Seq<char>) -> Option<Seq<u8>>;

/// Parses a UUID in any of the forms that `uuid::Uuid::parse_str` accepts.
///
/// Trusted: `uuid::Uuid::parse_str`. Claimed: the result is the name `uuid_parse` of the
/// text. Which texts are accepted (simple, hyphenated, braced, URN) is left to that name.
#[verifier::external_body]
pub(crate) fn parse_uid(text: &str) -> (r: Option<Uid>)
    ensures
        match r {
            Some(u) => uuid_parse(text@) == Some(u.bytes@),
            None => uuid_parse(text@) is None,
        },
{
    match uuid::Uuid::parse_str(text) {
        Ok(u) => Some(Uid { bytes: u.into_bytes() }),
        Err(_) => None,
    }
}

/// A fresh random (version 4) identifier.
///
/// Trusted: `uuid::Uuid::new_v4`. Claimed, of every outcome: the version nibble (high
/// half of byte 6) is 4 and the two top bits of byte 8 are `10`, as its masks set them.
/// Which bytes come out is left open: they are random.
#[verifier::external_body]
pub(crate) fn new_random_uid() -> (u: Uid)
    ensures
        u.bytes[6] / 16 == 4,
        u.bytes[8] / 64 == 2,
{
    Uid { bytes: uuid::Uuid::new_v4().into_bytes() }
}

} // verus!
