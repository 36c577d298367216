//! The keys and tags under which the board keeps its state in Redis and in object storage.
use crate::crypto::{sha256, sha256_digest};
use crate::ids::{hex_digit, hex_lower, hex_string, new_random_uid, uid_text, uid_to_text, Uid};
use vstd::prelude::*;
use vstd::string::*;

verus! {

/// `rate-limit:ip:` followed by the client's address.
pub open spec fn rate_limit_tag(ip: Seq<char>) -> Seq<char> {
    "rate-limit:ip:"@ + ip
}

/// `post-img-` followed by the user's identifier.
pub open spec fn post_img_tag(user: Seq<u8>) -> Seq<char> {
    "post-img-"@ + uid_text(user)
}

/// `post-comment-` followed by the user's identifier.
pub open spec fn post_comment_tag(user: Seq<u8>) -> Seq<char> {
    "post-comment-"@ + uid_text(user)
}

/// `presigned:`, the user's identifier, `:`, and the hex SHA-256 of the URL's UTF-8 bytes.
pub open spec fn presigned_url_tag(url: Seq<u8>, user: Seq<u8>) -> Seq<char> {
    "presigned:"@ + uid_text(user) + ":"@ + hex_lower(sha256(url))
}

/// `user-` followed by the hex SHA-256 of the identifier's bytes: the name under which
/// other users see a user.
pub open spec fn user_identifier(user: Seq<u8>) -> Seq<char> {
    "user-"@ + hex_lower(sha256(user))
}

/// `ban-{identifier}-from-{room}` for a ban from one room, `ban-{identifier}` for a ban
/// from every room.
pub open spec fn ban_tag(identifier: Seq<char>, room: Option<Seq<u8>>) -> Seq<char> {
    match room {
        Some(r) => "ban-"@ + identifier + "-from-"@ + uid_text(r),
        None => "ban-"@ + identifier,
    }
}

/// `{room}/{object}`: where an uploaded image of a room is stored.
pub open spec fn object_key_text(room: Seq<u8>, object: Seq<u8>) -> Seq<char> {
    uid_text(room) + "/"@ + uid_text(object)
}

/// The key that counts the requests of one client address.
pub fn generate_rate_limit_tag(ip: &String) -> (s: String)
    ensures
        s@ == rate_limit_tag(ip@),
{
    let mut s = String::from_str("rate-limit:ip:");
    s.append(ip.as_str());
    s
}

/// The key that is present while a user must wait before posting another image.
pub fn generate_redis_post_img_tag(user_id: &Uid) -> (s: String)
    ensures
        s@ == post_img_tag(user_id.bytes@),
{
    let mut s = String::from_str("post-img-");
    let id = uid_to_text(user_id);
    s.append(id.as_str());
    s
}

/// The key that is present while a user must wait before posting another comment.
pub fn generate_redis_post_comment_tag(user_id: &Uid) -> (s: String)
    ensures
        s@ == post_comment_tag(user_id.bytes@),
{
    let mut s = String::from_str("post-comment-");
    let id = uid_to_text(user_id);
    s.append(id.as_str());
    s
}

/// The key under which the object key of a presigned upload URL handed to a user is kept.
pub fn generate_redis_presigned_url_save(presigned_url: &str, user_id: &Uid) -> (s: String)
    ensures
        s@ == presigned_url_tag(presigned_url.spec_bytes(), user_id.bytes@),
{
    let digest = sha256_digest(presigned_url.as_bytes());
    let mut s = String::from_str("presigned:");
    let id = uid_to_text(user_id);
    s.append(id.as_str());
    s.append(":");
    let h = hex_string(digest.as_slice());
    s.append(h.as_str());
    proof {
        reveal_strlit(":");
    }
    s
}

/// The public name of a user: `user-` and the hex SHA-256 of the identifier's bytes.
pub fn generate_user_identifier(user_id: &Uid) -> (s: String)
    ensures
        s@ == user_identifier(user_id.bytes@),
        s@.len() == 69,
{
    let digest = sha256_digest(user_id.bytes.as_slice());
    let mut s = String::from_str("user-");
    let h = hex_string(digest.as_slice());
    s.append(h.as_str());
    proof {
        reveal_strlit("user-");
    }
    s
}

/// The key whose presence marks a ban of a user (by public name) from one room or from all.
pub fn generate_ban_tag_from_user_identifier(user_identifier: &str, room_id: Option<&Uid>) -> (s:
    String)
    ensures
        s@ == ban_tag(
            user_identifier@,
            match room_id {
                Some(r) => Some(r.bytes@),
                None => None,
            },
        ),
{
    let mut s = String::from_str("ban-");
    s.append(user_identifier);
    match room_id {
        Some(room) => {
            s.append("-from-");
            let id = uid_to_text(room);
            s.append(id.as_str());
        },
        None => {},
    }
    s
}

/// The storage key of an image of `room_id` whose own identifier is `object_id`.
pub fn object_key_for(room_id: &Uid, object_id: &Uid) -> (s: String)
    ensures
        s@ == object_key_text(room_id.bytes@, object_id.bytes@),
{
    let mut s = uid_to_text(room_id);
    s.append("/");
    let o = uid_to_text(object_id);
    s.append(o.as_str());
    s
}

/// A fresh storage key for an image of `room_id`, under a new random identifier: a
/// version-4 identifier (the high half of byte 6 is 4, the two top bits of byte 8 are `10`).
pub fn generate_object_key(room_id: &Uid) -> (s: String)
    ensures
        exists|object: Seq<u8>|
            #![trigger object_key_text(room_id.bytes@, object)]
            object.len() == 16 && object[6] / 16 == 4 && object[8] / 64 == 2 && s@
                == object_key_text(room_id.bytes@, object),
{
    let object = new_random_uid();
    let s = object_key_for(room_id, &object);
    assert(object.bytes@.len() == 16);
    assert(object.bytes@[6] == object.bytes[6] && object.bytes@[8] == object.bytes[8]);
    s
}

proof fn lemma_hex_digit_injective(n: int, m: int)
    requires
        0 <= n < 16,
        0 <= m < 16,
        hex_digit(n) == hex_digit(m),
    ensures
        n == m,
{
}

/// Equal hex texts of equally long byte strings come from equal byte strings.
pub proof fn lemma_hex_lower_injective(a: Seq<u8>, b: Seq<u8>)
    requires
        a.len() == b.len(),
        hex_lower(a) == hex_lower(b),
    ensures
        a == b,
{
    assert forall|k: int| 0 <= k < a.len() implies a[k] == b[k] by {
        let i = 2 * k;
        assert(i / 2 == k && i % 2 == 0 && (i + 1) / 2 == k && (i + 1) % 2 == 1);
        assert(hex_lower(a)[i] == hex_digit(a[k] as int / 16));
        assert(hex_lower(b)[i] == hex_digit(b[k] as int / 16));
        assert(hex_lower(a)[i + 1] == hex_digit(a[k] as int % 16));
        assert(hex_lower(b)[i + 1] == hex_digit(b[k] as int % 16));
        lemma_hex_digit_injective(a[k] as int / 16, b[k] as int / 16);
        lemma_hex_digit_injective(a[k] as int % 16, b[k] as int % 16);
    }
    assert(a =~= b);
}

proof fn lemma_uid_text_groups(b: Seq<u8>)
    requires
        b.len() == 16,
    ensures
        uid_text(b).subrange(0, 8) == hex_lower(b.subrange(0, 4)),
        uid_text(b).subrange(9, 13) == hex_lower(b.subrange(4, 6)),
        uid_text(b).subrange(14, 18) == hex_lower(b.subrange(6, 8)),
        uid_text(b).subrange(19, 23) == hex_lower(b.subrange(8, 10)),
        uid_text(b).subrange(24, 36) == hex_lower(b.subrange(10, 16)),
{
    let t = uid_text(b);
    let h0 = hex_lower(b.subrange(0, 4));
    let h1 = hex_lower(b.subrange(4, 6));
    let h2 = hex_lower(b.subrange(6, 8));
    let h3 = hex_lower(b.subrange(8, 10));
    let h4 = hex_lower(b.subrange(10, 16));
    assert(t.subrange(0, 8) =~= h0);
    assert(t.subrange(9, 13) =~= h1);
    assert(t.subrange(14, 18) =~= h2);
    assert(t.subrange(19, 23) =~= h3);
    assert(t.subrange(24, 36) =~= h4);
}

/// The hyphenated text of an identifier determines the identifier.
pub proof fn lemma_uid_text_injective(a: Seq<u8>, b: Seq<u8>)
    requires
        a.len() == 16,
        b.len() == 16,
        uid_text(a) == uid_text(b),
    ensures
        a == b,
{
    lemma_uid_text_groups(a);
    lemma_uid_text_groups(b);
    lemma_hex_lower_injective(a.subrange(0, 4), b.subrange(0, 4));
    lemma_hex_lower_injective(a.subrange(4, 6), b.subrange(4, 6));
    lemma_hex_lower_injective(a.subrange(6, 8), b.subrange(6, 8));
    lemma_hex_lower_injective(a.subrange(8, 10), b.subrange(8, 10));
    lemma_hex_lower_injective(a.subrange(10, 16), b.subrange(10, 16));
    assert(a =~= a.subrange(0, 4) + a.subrange(4, 6) + a.subrange(6, 8) + a.subrange(8, 10)
        + a.subrange(10, 16));
    assert(b =~= b.subrange(0, 4) + b.subrange(4, 6) + b.subrange(6, 8) + b.subrange(8, 10)
        + b.subrange(10, 16));
}

proof fn lemma_suffix_equal(p: Seq<char>, x: Seq<char>, y: Seq<char>)
    requires
        p + x == p + y,
    ensures
        x == y,
{
    assert(x =~= (p + x).subrange(p.len() as int, (p + x).len() as int));
    assert(y =~= (p + y).subrange(p.len() as int, (p + y).len() as int));
}

/// The per-user keys of two different users differ: one user's waiting marks and stored
/// upload URLs are never found under another user's key.
pub proof fn per_user_keys_differ(a: Seq<u8>, b: Seq<u8>, url_a: Seq<u8>, url_b: Seq<u8>)
    requires
        a.len() == 16,
        b.len() == 16,
        a != b,
    ensures
        post_img_tag(a) != post_img_tag(b),
        post_comment_tag(a) != post_comment_tag(b),
        presigned_url_tag(url_a, a) != presigned_url_tag(url_b, b),
{
    if post_img_tag(a) == post_img_tag(b) {
        lemma_suffix_equal("post-img-"@, uid_text(a), uid_text(b));
        lemma_uid_text_injective(a, b);
    }
    if post_comment_tag(a) == post_comment_tag(b) {
        lemma_suffix_equal("post-comment-"@, uid_text(a), uid_text(b));
        lemma_uid_text_injective(a, b);
    }
    if presigned_url_tag(url_a, a) == presigned_url_tag(url_b, b) {
        reveal_strlit("presigned:");
        let ta = presigned_url_tag(url_a, a);
        let tb = presigned_url_tag(url_b, b);
        assert(ta.subrange(10, 46) =~= uid_text(a));
        assert(tb.subrange(10, 46) =~= uid_text(b));
        lemma_uid_text_injective(a, b);
    }
}

proof fn lemma_uid_text_third_char_is_hex(b: Seq<u8>)
    requires
        b.len() == 16,
    ensures
        uid_text(b).len() == 36,
        uid_text(b)[2] != 'n',
        uid_text(b)[2] != '-',
        uid_text(b)[0] != 'r',
        uid_text(b)[0] != 'p',
{
    let h = hex_lower(b.subrange(0, 4));
    assert(uid_text(b)[2] == h[2]);
    assert(uid_text(b)[0] == h[0]);
    assert(h[2] == hex_digit(b.subrange(0, 4)[1] as int / 16));
    assert(h[0] == hex_digit(b.subrange(0, 4)[0] as int / 16));
}

/// Keys of different kinds never collide: request counters, image and comment waiting
/// marks, stored upload URLs, ban marks and the per-room ban lists (keyed by the room's
/// identifier) live in disjoint parts of the key space.
pub proof fn key_kinds_are_disjoint(
    ip: Seq<char>,
    user_a: Seq<u8>,
    user_b: Seq<u8>,
    url: Seq<u8>,
    identifier: Seq<char>,
    ban_room: Option<Seq<u8>>,
    list_room: Seq<u8>,
)
    requires
        user_a.len() == 16,
        user_b.len() == 16,
        list_room.len() == 16,
    ensures
        rate_limit_tag(ip) != post_img_tag(user_a),
        rate_limit_tag(ip) != post_comment_tag(user_a),
        rate_limit_tag(ip) != presigned_url_tag(url, user_a),
        rate_limit_tag(ip) != ban_tag(identifier, ban_room),
        rate_limit_tag(ip) != uid_text(list_room),
        post_img_tag(user_a) != post_comment_tag(user_b),
        post_img_tag(user_a) != presigned_url_tag(url, user_b),
        post_img_tag(user_a) != ban_tag(identifier, ban_room),
        post_img_tag(user_a) != uid_text(list_room),
        post_comment_tag(user_a) != presigned_url_tag(url, user_b),
        post_comment_tag(user_a) != ban_tag(identifier, ban_room),
        post_comment_tag(user_a) != uid_text(list_room),
        presigned_url_tag(url, user_a) != ban_tag(identifier, ban_room),
        presigned_url_tag(url, user_a) != uid_text(list_room),
        ban_tag(identifier, ban_room) != uid_text(list_room),
{
    reveal_strlit("rate-limit:ip:");
    reveal_strlit("post-img-");
    reveal_strlit("post-comment-");
    reveal_strlit("presigned:");
    reveal_strlit("ban-");
    reveal_strlit("-from-");
    lemma_uid_text_third_char_is_hex(list_room);
    let r = rate_limit_tag(ip);
    let i = post_img_tag(user_a);
    let i2 = post_img_tag(user_b);
    let c = post_comment_tag(user_a);
    let c2 = post_comment_tag(user_b);
    let p = presigned_url_tag(url, user_a);
    let p2 = presigned_url_tag(url, user_b);
    let bt = ban_tag(identifier, ban_room);
    let l = uid_text(list_room);
    assert(r[0] == 'r');
    assert(i[0] == 'p' && i[1] == 'o' && i[5] == 'i');
    assert(i2[0] == 'p' && i2[1] == 'o' && i2[5] == 'i');
    assert(c[0] == 'p' && c[1] == 'o' && c[5] == 'c');
    assert(c2[0] == 'p' && c2[1] == 'o' && c2[5] == 'c');
    assert(p[0] == 'p' && p[1] == 'r');
    assert(p2[0] == 'p' && p2[1] == 'r');
    assert(bt[0] == 'b' && bt[2] == 'n');
    assert(l[0] != 'r' && l[0] != 'p' && l[2] != 'n');
}

/// Ban keys name exactly one ban: among public names of one length (every name that
/// `generate_user_identifier` gives is 69 characters long), a ban from a room is never
/// stored under the key of a ban from every room, bans of two rooms differ, and bans of two
/// names differ.
pub proof fn ban_keys_are_distinct(
    name_a: Seq<char>,
    name_b: Seq<char>,
    room_a: Seq<u8>,
    room_b: Seq<u8>,
)
    requires
        name_a.len() == name_b.len(),
        room_a.len() == 16,
        room_b.len() == 16,
    ensures
        ban_tag(name_a, Some(room_a)) != ban_tag(name_b, None),
        room_a != room_b ==> ban_tag(name_a, Some(room_a)) != ban_tag(name_a, Some(room_b)),
        name_a != name_b ==> ban_tag(name_a, Some(room_a)) != ban_tag(name_b, Some(room_b)),
        name_a != name_b ==> ban_tag(name_a, None) != ban_tag(name_b, None),
{
    reveal_strlit("ban-");
    reveal_strlit("-from-");
    lemma_uid_text_third_char_is_hex(room_a);
    lemma_uid_text_third_char_is_hex(room_b);
    let n = name_a.len() as int;
    let ta = ban_tag(name_a, Some(room_a));
    let tb = ban_tag(name_a, Some(room_b));
    if room_a != room_b && ta == tb {
        assert(ta.subrange(n + 10, n + 46) =~= uid_text(room_a));
        assert(tb.subrange(n + 10, n + 46) =~= uid_text(room_b));
        lemma_uid_text_injective(room_a, room_b);
    }
    let tc = ban_tag(name_b, Some(room_b));
    if name_a != name_b && ta == tc {
        assert(ta.subrange(4, n + 4) =~= name_a);
        assert(tc.subrange(4, n + 4) =~= name_b);
    }
    let ga = ban_tag(name_a, None);
    let gb = ban_tag(name_b, None);
    if name_a != name_b && ga == gb {
        assert(ga.subrange(4, n + 4) =~= name_a);
        assert(gb.subrange(4, n + 4) =~= name_b);
    }
}

} // verus!
