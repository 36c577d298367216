//! Bearer tokens: the user's identifier and a base64 HMAC-SHA-256 signature of it.
use crate::crypto::{base64_decode, base64_decode_text, base64_encode, base64_encode_bytes, hmac_sha256, hmac_sha256_tag, hmac_sha256_verify, is_base64_char};
use crate::ids::{hex_digit, hex_lower, parse_uid, push_char, uid_text, uid_to_text, uuid_parse, Uid};
use vstd::prelude::*;
use vstd::string::*;

verus! {

/// The token issued to `user` under `secret`: the hyphenated identifier, a `.`, and the
/// standard base64 text of the HMAC-SHA-256 tag of the identifier's bytes.
pub open spec fn token_text(user: Seq<u8>, secret: Seq<u8>) -> Seq<char> {
    uid_text(user) + seq!['.'] + base64_encode(hmac_sha256(secret, user))
}

/// `t` holds exactly one `.`, at position `i`.
pub open spec fn single_dot_at(t: Seq<char>, i: int) -> bool {
    &&& 0 <= i < t.len()
    &&& t[i] == '.'
    &&& forall|j: int| 0 <= j < t.len() && j != i ==> t[j] != '.'
}

/// The user that a token proves under `secret`, if any: the token splits at `.` into
/// exactly two parts, the first parses as a UUID, the second decodes as standard base64,
/// and the decoded bytes are the HMAC-SHA-256 tag of the UUID's bytes.
pub open spec fn token_user(t: Seq<char>, secret: Seq<u8>) -> Option<Seq<u8>> {
    if exists|i: int| single_dot_at(t, i) {
        let i = choose|i: int| single_dot_at(t, i);
        match uuid_parse(t.subrange(0, i)) {
            Some(u) => match base64_decode(t.subrange(i + 1, t.len() as int)) {
                Some(sig) => if sig == hmac_sha256(secret, u) {
                    Some(u)
                } else {
                    None
                },
                None => None,
            },
            None => None,
        }
    } else {
        None
    }
}

/// The bytes of an optional identifier.
pub open spec fn uid_bytes(r: Option<Uid>) -> Option<Seq<u8>> {
    match r {
        Some(u) => Some(u.bytes@),
        None => None,
    }
}

/// A lowercase hex digit or a hyphen: the characters of a UUID's text.
spec fn is_uid_char(c: char) -> bool {
    ('0' <= c && c <= '9') || ('a' <= c && c <= 'f') || c == '-'
}

proof fn lemma_hex_chars(b: Seq<u8>)
    ensures
        forall|i: int| 0 <= i < hex_lower(b).len() ==> is_uid_char(#[trigger] hex_lower(b)[i]),
{
    assert forall|i: int| 0 <= i < hex_lower(b).len() implies is_uid_char(#[trigger] hex_lower(b)[i]) by {
        let n = if i % 2 == 0 {
            b[i / 2] as int / 16
        } else {
            b[i / 2] as int % 16
        };
        assert(0 <= n < 16);
        assert(hex_lower(b)[i] == hex_digit(n));
    }
}

proof fn lemma_uid_text_chars(b: Seq<u8>)
    requires
        b.len() == 16,
    ensures
        uid_text(b).len() == 36,
        forall|i: int| 0 <= i < 36 ==> is_uid_char(#[trigger] uid_text(b)[i]),
{
    lemma_hex_chars(b.subrange(0, 4));
    lemma_hex_chars(b.subrange(4, 6));
    lemma_hex_chars(b.subrange(6, 8));
    lemma_hex_chars(b.subrange(8, 10));
    lemma_hex_chars(b.subrange(10, 16));
}

/// Issues the token of `user` under `secret`.
///
/// Every token issued here is accepted by `verify_token` under the same secret, which
/// gives back the same user.
pub fn generate_token(user: &Uid, secret: &[u8]) -> (s: String)
    ensures
        s@ == token_text(user.bytes@, secret@),
        token_user(s@, secret@) == Some(user.bytes@),
        s@.len() == 81,
        s@[36] == '.',
        forall|i: int| 0 <= i < 80 ==> #[trigger] s@[i] != '=',
        s@[80] == '=',
{
    let mut s = uid_to_text(user);
    let tag = hmac_sha256_tag(secret, user.bytes.as_slice());
    let sig = base64_encode_bytes(tag.as_slice());
    push_char(&mut s, '.');
    s.append(sig.as_str());
    proof {
        let ub = user.bytes@;
        let t = s@;
        lemma_uid_text_chars(ub);
        assert(t =~= uid_text(ub) + seq!['.'] + sig@);
        assert(single_dot_at(t, 36)) by {
            assert forall|j: int| 0 <= j < t.len() && j != 36 implies t[j] != '.' by {
                if j < 36 {
                    assert(t[j] == uid_text(ub)[j]);
                    assert(is_uid_char(uid_text(ub)[j]));
                } else {
                    assert(t[j] == sig@[j - 37]);
                    assert(is_base64_char(sig@[j - 37]));
                }
            }
        }
        let i = choose|i: int| single_dot_at(t, i);
        assert(i == 36);
        assert(t.subrange(0, 36) =~= uid_text(ub));
        assert(t.subrange(37, t.len() as int) =~= sig@);
        assert(sig@.len() == 44);
        assert(t[80] == sig@[43]);
        assert forall|i: int| 0 <= i < 80 implies #[trigger] t[i] != '=' by {
            if i < 36 {
                assert(t[i] == uid_text(ub)[i]);
                assert(is_uid_char(uid_text(ub)[i]));
            } else if i > 36 {
                assert(t[i] == sig@[i - 37]);
            }
        }
    }
    s
}

/// The user that `token` proves under `secret`, or `None`.
pub fn verify_token(token: &str, secret: &[u8]) -> (r: Option<Uid>)
    ensures
        uid_bytes(r) == token_user(token@, secret@),
        r matches Some(u) ==> exists|i: int|
            single_dot_at(token@, i) && token@.subrange(i + 1, token@.len() as int)
                == base64_encode(hmac_sha256(secret@, u@)),
{
    broadcast use vstd::string::group_string_axioms;

    let n = token.unicode_len();
    let mut dots: usize = 0;
    let mut first: usize = 0;
    let mut second: usize = 0;
    let mut i: usize = 0;
    for c in it: token.chars()
        invariant
            n == token@.len(),
            it.seq() == token@,
            i == it.index(),
            i <= n,
            dots <= 2,
            dots == 0 ==> forall|j: int| 0 <= j < i ==> token@[j] != '.',
            dots >= 1 ==> first < i && token@[first as int] == '.',
            dots == 1 ==> forall|j: int| 0 <= j < i && j != first ==> token@[j] != '.',
            dots == 2 ==> first < second < i && token@[second as int] == '.',
    {
        if c == '.' {
            if dots == 0 {
                first = i;
                dots = 1;
            } else if dots == 1 {
                second = i;
                dots = 2;
            }
        }
        i = i + 1;
    }
    if dots != 1 {
        proof {
            if exists|k: int| single_dot_at(token@, k) {
                let k = choose|k: int| single_dot_at(token@, k);
                if dots == 2 {
                    if k == first {
                        assert(token@[second as int] != '.');
                    } else {
                        assert(token@[first as int] != '.');
                    }
                } else {
                    assert(token@[k] != '.');
                }
            }
        }
        return None;
    }
    proof {
        assert(single_dot_at(token@, first as int));
        let k = choose|k: int| single_dot_at(token@, k);
        assert(k == first);
    }
    let head = token.substring_char(0, first);
    let tail = token.substring_char(first + 1, n);
    let user = match parse_uid(head) {
        Some(u) => u,
        None => {
            return None;
        },
    };
    let sig = match base64_decode_text(tail) {
        Some(v) => v,
        None => {
            return None;
        },
    };
    if hmac_sha256_verify(secret, user.bytes.as_slice(), sig.as_slice()) {
        assert(single_dot_at(token@, first as int));
        assert(token@.subrange(first + 1, token@.len() as int) == tail@);
        Some(user)
    } else {
        None
    }
}

} // verus!
