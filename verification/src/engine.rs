//! What the request handlers decide: who is asking, which guards a request must pass,
//! and what it writes and announces once it has passed them.
use crate::guards::{
    all_pass, can_take_action_guards, can_take_action_view, guards_view, next_after, Check,
    CheckView, Guard, GuardView, Next, Status,
};
use crate::ids::Uid;
use crate::keys::{ban_tag, generate_user_identifier, user_identifier};
use crate::repository::{CommentModel, ImageModel, ImageVoteModel};
use crate::token::{generate_token, token_text, token_user, verify_token};
use crate::ws::ServerEvent;
use vstd::prelude::*;
use vstd::string::*;
use vstd::utf8::{encode_utf8, is_char_boundary};

verus! {

/// The user that a request's bearer token proves.
#[derive(Clone, Copy, Debug)]
pub struct AuthUser {
    pub user_id: Uid,
}

/// Query of a comment post: the room it goes to.
#[derive(Clone, Copy, Debug)]
pub struct PostCommentQuery {
    pub room_id: Uid,
}

/// Query of a comment deletion.
#[derive(Clone, Copy, Debug)]
pub struct DeleteCommentQuery {
    pub comment_id: Uid,
    pub room_id: Uid,
}

/// Query of a vote on an image.
#[derive(Clone, Copy, Debug)]
pub struct VoteQuery {
    pub img_id: Uid,
    pub is_good: bool,
    pub room_id: Uid,
}

/// Query of a ban: the room, its master, and the public name of the user to ban.
#[derive(Clone, Debug)]
pub struct BanUserQuery {
    pub room_id: Uid,
    pub master_id: Uid,
    pub user_identifier: String,
}

/// Query of the lifting of a ban.
#[derive(Clone, Debug)]
pub struct DeleteBanUserQuery {
    pub user_identifier: String,
    pub room_id: Uid,
}

/// Query of a room deletion.
#[derive(Clone, Copy, Debug)]
pub struct DeleteRoomQuery {
    pub room_id: Uid,
}

fn guards_then(gs: Vec<Guard>, g: Guard) -> (r: Vec<Guard>)
    ensures
        guards_view(r@) == guards_view(gs@).push(g@),
{
    let mut r = gs;
    let ghost before = r@;
    r.push(g);
    assert(guards_view(r@) =~= guards_view(before).push(g@));
    r
}

/// A comment post: the poster may act in the room, and the poster's comment waiting
/// mark is absent (else `TooManyRequests`).
pub open spec fn post_comment_view(room: Seq<u8>, user: Seq<u8>) -> Seq<GuardView> {
    can_take_action_view(user, room).push(
        GuardView {
            check: CheckView::CommentWaitsEnough(user),
            expect: true,
            on_fail: Status::TooManyRequests,
        },
    )
}

/// The guards of a comment post.
pub fn post_comment_guards(q: &PostCommentQuery, auth: &AuthUser) -> (gs: Vec<Guard>)
    ensures
        guards_view(gs@) == post_comment_view(q.room_id@, auth.user_id@),
{
    let gs = can_take_action_guards(&auth.user_id, &q.room_id);
    guards_then(
        gs,
        Guard {
            check: Check::CommentWaitsEnough(auth.user_id),
            expect: true,
            on_fail: Status::TooManyRequests,
        },
    )
}

/// A comment deletion: the user may act in the room, the comment exists (else
/// `BadRequest`) and belongs to the room (else `BadRequest`), and the user is the room's
/// master (else `Forbidden`).
pub open spec fn delete_comment_view(room: Seq<u8>, comment: Seq<u8>, user: Seq<u8>) -> Seq<
    GuardView,
> {
    can_take_action_view(user, room).push(
        GuardView {
            check: CheckView::CommentExists(comment),
            expect: true,
            on_fail: Status::BadRequest,
        },
    ).push(
        GuardView {
            check: CheckView::RoomHasComment(comment, room),
            expect: true,
            on_fail: Status::BadRequest,
        },
    ).push(
        GuardView {
            check: CheckView::IsRoomMaster(user, room),
            expect: true,
            on_fail: Status::Forbidden,
        },
    )
}

/// The guards of a comment deletion.
pub fn delete_comment_guards(q: &DeleteCommentQuery, auth: &AuthUser) -> (gs: Vec<Guard>)
    ensures
        guards_view(gs@) == delete_comment_view(q.room_id@, q.comment_id@, auth.user_id@),
{
    let gs = can_take_action_guards(&auth.user_id, &q.room_id);
    let gs = guards_then(
        gs,
        Guard {
            check: Check::CommentExists(q.comment_id),
            expect: true,
            on_fail: Status::BadRequest,
        },
    );
    let gs = guards_then(
        gs,
        Guard {
            check: Check::RoomHasComment { comment: q.comment_id, room: q.room_id },
            expect: true,
            on_fail: Status::BadRequest,
        },
    );
    guards_then(
        gs,
        Guard {
            check: Check::IsRoomMaster { user: auth.user_id, room: q.room_id },
            expect: true,
            on_fail: Status::Forbidden,
        },
    )
}

/// A vote: the voter may act in the room, and the image belongs to the room (else
/// `BadRequest`).
pub open spec fn vote_view(room: Seq<u8>, img: Seq<u8>, user: Seq<u8>) -> Seq<GuardView> {
    can_take_action_view(user, room).push(
        GuardView {
            check: CheckView::RoomHasImg(img, room),
            expect: true,
            on_fail: Status::BadRequest,
        },
    )
}

/// The guards of a vote.
pub fn vote_guards(q: &VoteQuery, auth: &AuthUser) -> (gs: Vec<Guard>)
    ensures
        guards_view(gs@) == vote_view(q.room_id@, q.img_id@, auth.user_id@),
{
    let gs = can_take_action_guards(&auth.user_id, &q.room_id);
    guards_then(
        gs,
        Guard {
            check: Check::RoomHasImg { img: q.img_id, room: q.room_id },
            expect: true,
            on_fail: Status::BadRequest,
        },
    )
}

/// A ban: the master may act in the room and is its master (else `Forbidden`).
pub open spec fn post_ban_user_view(room: Seq<u8>, master: Seq<u8>) -> Seq<GuardView> {
    can_take_action_view(master, room).push(
        GuardView {
            check: CheckView::IsRoomMaster(master, room),
            expect: true,
            on_fail: Status::Forbidden,
        },
    )
}

/// The guards of a ban.
pub fn post_ban_user_guards(q: &BanUserQuery) -> (gs: Vec<Guard>)
    ensures
        guards_view(gs@) == post_ban_user_view(q.room_id@, q.master_id@),
{
    let gs = can_take_action_guards(&q.master_id, &q.room_id);
    guards_then(
        gs,
        Guard {
            check: Check::IsRoomMaster { user: q.master_id, room: q.room_id },
            expect: true,
            on_fail: Status::Forbidden,
        },
    )
}

/// The lifting of a ban: the caller may act in the room, and the caller's own public name
/// is not in the room's ban list (else `BadRequest`).
pub open spec fn delete_ban_user_view(room: Seq<u8>, user: Seq<u8>) -> Seq<GuardView> {
    can_take_action_view(user, room).push(
        GuardView {
            check: CheckView::IsBanned(room, user_identifier(user)),
            expect: false,
            on_fail: Status::BadRequest,
        },
    )
}

/// The guards of the lifting of a ban.
pub fn delete_ban_user_guards(q: &DeleteBanUserQuery, auth: &AuthUser) -> (gs: Vec<Guard>)
    ensures
        guards_view(gs@) == delete_ban_user_view(q.room_id@, auth.user_id@),
{
    let gs = can_take_action_guards(&auth.user_id, &q.room_id);
    let ident = generate_user_identifier(&auth.user_id);
    guards_then(
        gs,
        Guard {
            check: Check::IsBanned { room: q.room_id, identifier: ident },
            expect: false,
            on_fail: Status::BadRequest,
        },
    )
}

/// A room deletion: the user is the room's master (else `Forbidden`).
pub open spec fn delete_room_view(room: Seq<u8>, user: Seq<u8>) -> Seq<GuardView> {
    seq![
        GuardView {
            check: CheckView::IsRoomMaster(user, room),
            expect: true,
            on_fail: Status::Forbidden,
        },
    ]
}

/// The guards of a room deletion.
pub fn delete_room_guards(q: &DeleteRoomQuery, auth: &AuthUser) -> (gs: Vec<Guard>)
    ensures
        guards_view(gs@) == delete_room_view(q.room_id@, auth.user_id@),
{
    let mut gs = Vec::new();
    gs.push(
        Guard {
            check: Check::IsRoomMaster { user: auth.user_id, room: q.room_id },
            expect: true,
            on_fail: Status::Forbidden,
        },
    );
    assert(guards_view(gs@) =~= delete_room_view(q.room_id@, auth.user_id@));
    gs
}

/// A user may act in a room only when the user and the room exist: every guarded action
/// of a user in a room that proceeds had both existence checks answered yes.
pub proof fn acting_needs_user_and_room(user: Seq<u8>, room: Seq<u8>, more: Seq<GuardView>, answers: Seq<bool>)
    requires
        next_after(can_take_action_view(user, room) + more, answers, Next::Proceed),
    ensures
        answers[0] && (can_take_action_view(user, room) + more)[0].check == CheckView::UserExists(user),
        answers[1] && (can_take_action_view(user, room) + more)[1].check == CheckView::RoomExists(room),
{
    let g = can_take_action_view(user, room) + more;
    assert(g[0] == can_take_action_view(user, room)[0]);
    assert(g[1] == can_take_action_view(user, room)[1]);
}

/// Only a room's master deletes a comment of the room: a comment deletion that proceeds had
/// its master check, on the deleting user and the room, answered yes, and the comment
/// found in that room.
pub proof fn comment_deletion_needs_master(room: Seq<u8>, comment: Seq<u8>, user: Seq<u8>, answers: Seq<bool>)
    requires
        next_after(delete_comment_view(room, comment, user), answers, Next::Proceed),
    ensures
        delete_comment_view(room, comment, user)[5].check == CheckView::RoomHasComment(comment, room),
        answers[5],
        delete_comment_view(room, comment, user)[6].check == CheckView::IsRoomMaster(user, room),
        answers[6],
{
}

/// Only a room's master bans from the room: a ban that proceeds had its master check, on
/// the banning user and the room, answered yes.
pub proof fn ban_needs_master(room: Seq<u8>, master: Seq<u8>, answers: Seq<bool>)
    requires
        next_after(post_ban_user_view(room, master), answers, Next::Proceed),
    ensures
        post_ban_user_view(room, master)[4].check == CheckView::IsRoomMaster(master, room),
        answers[4],
{
}

/// Only a room's master deletes the room.
pub proof fn room_deletion_needs_master(room: Seq<u8>, user: Seq<u8>, answers: Seq<bool>)
    requires
        next_after(delete_room_view(room, user), answers, Next::Proceed),
    ensures
        delete_room_view(room, user)[0].check == CheckView::IsRoomMaster(user, room),
        answers[0],
{
}

/// A vote is recorded only for an image of the room it is cast in.
pub proof fn vote_needs_image_of_room(room: Seq<u8>, img: Seq<u8>, user: Seq<u8>, answers: Seq<bool>)
    requires
        next_after(vote_view(room, img, user), answers, Next::Proceed),
    ensures
        vote_view(room, img, user)[4].check == CheckView::RoomHasImg(img, room),
        answers[4],
{
}

/// A comment is posted only when the poster's waiting mark is absent.
pub proof fn comment_post_needs_wait(room: Seq<u8>, user: Seq<u8>, answers: Seq<bool>)
    requires
        next_after(post_comment_view(room, user), answers, Next::Proceed),
    ensures
        post_comment_view(room, user)[4].check == CheckView::CommentWaitsEnough(user),
        answers[4],
{
}

/// The first four checks of `gs`, each answered yes, are those that let `user` act in
/// `room`: the user exists, the room exists, and the user's ban tags for that room and for
/// every room are both present.
pub open spec fn cleared_to_act(gs: Seq<GuardView>, answers: Seq<bool>, user: Seq<u8>, room: Seq<u8>) -> bool {
    &&& gs.len() >= 4
    &&& answers.len() >= 4
    &&& gs[0].check == CheckView::UserExists(user) && answers[0]
    &&& gs[1].check == CheckView::RoomExists(room) && answers[1]
    &&& gs[2].check == CheckView::BanTagExists(ban_tag(user_identifier(user), Some(room)))
        && answers[2]
    &&& gs[3].check == CheckView::BanTagExists(ban_tag(user_identifier(user), None)) && answers[3]
}

/// A vote goes through only when the voter may act in the room the vote is cast in: the
/// voter and that room exist and the voter's ban tags for that room are present.
pub proof fn vote_acts_in_its_room(room: Seq<u8>, img: Seq<u8>, user: Seq<u8>, answers: Seq<bool>)
    requires
        next_after(vote_view(room, img, user), answers, Next::Proceed),
    ensures
        cleared_to_act(vote_view(room, img, user), answers, user, room),
{
}

/// A comment is posted only when the poster may act in the room it is posted to.
pub proof fn comment_post_acts_in_its_room(room: Seq<u8>, user: Seq<u8>, answers: Seq<bool>)
    requires
        next_after(post_comment_view(room, user), answers, Next::Proceed),
    ensures
        cleared_to_act(post_comment_view(room, user), answers, user, room),
{
}

/// A comment is deleted only when the deleting user may act in the comment's room.
pub proof fn comment_deletion_acts_in_its_room(room: Seq<u8>, comment: Seq<u8>, user: Seq<u8>, answers: Seq<bool>)
    requires
        next_after(delete_comment_view(room, comment, user), answers, Next::Proceed),
    ensures
        cleared_to_act(delete_comment_view(room, comment, user), answers, user, room),
{
}

/// A ban is written only when the banning master may act in the room the ban is for.
pub proof fn ban_acts_in_its_room(room: Seq<u8>, master: Seq<u8>, answers: Seq<bool>)
    requires
        next_after(post_ban_user_view(room, master), answers, Next::Proceed),
    ensures
        cleared_to_act(post_ban_user_view(room, master), answers, master, room),
{
}

/// A ban is lifted only when the caller may act in the room it is lifted in.
pub proof fn ban_lifting_acts_in_its_room(room: Seq<u8>, user: Seq<u8>, answers: Seq<bool>)
    requires
        next_after(delete_ban_user_view(room, user), answers, Next::Proceed),
    ensures
        cleared_to_act(delete_ban_user_view(room, user), answers, user, room),
{
}

/// The lifting of a ban goes through only when the caller's own public name is not on the
/// room's ban list.
pub proof fn ban_lifting_needs_caller_unbanned(room: Seq<u8>, user: Seq<u8>, answers: Seq<bool>)
    requires
        next_after(delete_ban_user_view(room, user), answers, Next::Proceed),
    ensures
        delete_ban_user_view(room, user)[4].check == CheckView::IsBanned(room, user_identifier(user)),
        !answers[4],
{
}

/// A refused vote is refused with `Forbidden` when the voter may not act in the room, and
/// otherwise with `BadRequest`, the image not being of the room.
pub proof fn vote_refusals(room: Seq<u8>, img: Seq<u8>, user: Seq<u8>, answers: Seq<bool>, s: Status)
    requires
        answers.len() <= vote_view(room, img, user).len(),
        next_after(vote_view(room, img, user), answers, Next::Stop(s)),
    ensures
        s == Status::Forbidden || s == Status::BadRequest,
        s == Status::Forbidden ==> !cleared_to_act(vote_view(room, img, user), answers, user, room),
        s == Status::BadRequest ==> cleared_to_act(vote_view(room, img, user), answers, user, room)
            && !answers[4],
{
    let g = vote_view(room, img, user);
    let i = choose|i: int|
        0 <= i < answers.len() && all_pass(g, answers, i) && answers[i] != g[i].expect && s
            == g[i].on_fail;
    assert(i < 5);
    if i == 4 {
        assert(answers[0] == g[0].expect && answers[1] == g[1].expect);
        assert(answers[2] == g[2].expect && answers[3] == g[3].expect);
    }
}

/// A refused comment post is refused with `Forbidden` when the poster may not act in the
/// room, and otherwise with `TooManyRequests`, the poster's waiting mark being present.
pub proof fn comment_post_refusals(room: Seq<u8>, user: Seq<u8>, answers: Seq<bool>, s: Status)
    requires
        answers.len() <= post_comment_view(room, user).len(),
        next_after(post_comment_view(room, user), answers, Next::Stop(s)),
    ensures
        s == Status::Forbidden || s == Status::TooManyRequests,
        s == Status::Forbidden ==> !cleared_to_act(post_comment_view(room, user), answers, user, room),
        s == Status::TooManyRequests ==> cleared_to_act(post_comment_view(room, user), answers, user, room)
            && !answers[4],
{
    let g = post_comment_view(room, user);
    let i = choose|i: int|
        0 <= i < answers.len() && all_pass(g, answers, i) && answers[i] != g[i].expect && s
            == g[i].on_fail;
    assert(i < 5);
    if i == 4 {
        assert(answers[0] == g[0].expect && answers[1] == g[1].expect);
        assert(answers[2] == g[2].expect && answers[3] == g[3].expect);
    }
}

/// A refused comment deletion is refused with `BadRequest` when the user may act in the
/// room but the comment is missing or of another room, and otherwise with `Forbidden`: the
/// user may not act in the room, or is not its master.
pub proof fn comment_deletion_refusals(room: Seq<u8>, comment: Seq<u8>, user: Seq<u8>, answers: Seq<bool>, s: Status)
    requires
        answers.len() <= delete_comment_view(room, comment, user).len(),
        next_after(delete_comment_view(room, comment, user), answers, Next::Stop(s)),
    ensures
        s == Status::Forbidden || s == Status::BadRequest,
        s == Status::BadRequest ==> cleared_to_act(delete_comment_view(room, comment, user), answers, user, room)
            && (!answers[4] || !answers[5]),
        s == Status::Forbidden && cleared_to_act(delete_comment_view(room, comment, user), answers, user, room)
            ==> answers.len() == 7 && answers[4] && answers[5] && !answers[6],
{
    let g = delete_comment_view(room, comment, user);
    let i = choose|i: int|
        0 <= i < answers.len() && all_pass(g, answers, i) && answers[i] != g[i].expect && s
            == g[i].on_fail;
    assert(i < 7);
    if i >= 4 {
        assert(answers[0] == g[0].expect && answers[1] == g[1].expect);
        assert(answers[2] == g[2].expect && answers[3] == g[3].expect);
    }
    if i == 5 || i == 6 {
        assert(answers[4] == g[4].expect);
    }
    if i == 6 {
        assert(answers[5] == g[5].expect);
    }
}

/// A refused ban is refused with `Forbidden`.
pub proof fn ban_refusals(room: Seq<u8>, master: Seq<u8>, answers: Seq<bool>, s: Status)
    requires
        answers.len() <= post_ban_user_view(room, master).len(),
        next_after(post_ban_user_view(room, master), answers, Next::Stop(s)),
    ensures
        s == Status::Forbidden,
{
}

/// A refused lifting of a ban is refused with `Forbidden` when the caller may not act in
/// the room, and otherwise with `BadRequest`, the caller's own name being banned there.
pub proof fn ban_lifting_refusals(room: Seq<u8>, user: Seq<u8>, answers: Seq<bool>, s: Status)
    requires
        answers.len() <= delete_ban_user_view(room, user).len(),
        next_after(delete_ban_user_view(room, user), answers, Next::Stop(s)),
    ensures
        s == Status::Forbidden || s == Status::BadRequest,
        s == Status::Forbidden ==> !cleared_to_act(delete_ban_user_view(room, user), answers, user, room),
        s == Status::BadRequest ==> cleared_to_act(delete_ban_user_view(room, user), answers, user, room)
            && answers[4],
{
    let g = delete_ban_user_view(room, user);
    let i = choose|i: int|
        0 <= i < answers.len() && all_pass(g, answers, i) && answers[i] != g[i].expect && s
            == g[i].on_fail;
    assert(i < 5);
    if i == 4 {
        assert(answers[0] == g[0].expect && answers[1] == g[1].expect);
        assert(answers[2] == g[2].expect && answers[3] == g[3].expect);
    }
}

/// The user an `Authorization` header proves under `secret`: the header is present, starts
/// with `Bearer `, and the rest is a token that `verify_token` accepts.
pub open spec fn bearer_user(header: Option<Seq<char>>, secret: Seq<u8>) -> Option<Seq<u8>> {
    match header {
        Some(h) => if h.len() >= 7 && h.subrange(0, 7) == "Bearer "@ {
            token_user(h.subrange(7, h.len() as int), secret)
        } else {
            None
        },
        None => None,
    }
}

/// The text of an optional header.
pub open spec fn header_text(header: Option<&str>) -> Option<Seq<char>> {
    match header {
        Some(h) => Some(h@),
        None => None,
    }
}

impl AuthUser {
    /// The user that the `Authorization` header of a request proves, or `Unauthorized`.
    pub fn from_header(authorization: Option<&str>, secret: &[u8]) -> (r: Result<AuthUser, Status>)
        ensures
            match r {
                Ok(a) => bearer_user(header_text(authorization), secret@) == Some(a.user_id@),
                Err(s) => s == Status::Unauthorized && bearer_user(
                    header_text(authorization),
                    secret@,
                ) is None,
            },
    {
        proof {
            reveal_strlit("Bearer ");
        }
        let h = match authorization {
            Some(h) => h,
            None => {
                return Err(Status::Unauthorized);
            },
        };
        let n = h.unicode_len();
        if n < 7 {
            return Err(Status::Unauthorized);
        }
        if !(h.get_char(0) == 'B' && h.get_char(1) == 'e' && h.get_char(2) == 'a' && h.get_char(3)
            == 'r' && h.get_char(4) == 'e' && h.get_char(5) == 'r' && h.get_char(6) == ' ') {
            proof {
                if h@.subrange(0, 7) == "Bearer "@ {
                    assert(h@[0] == h@.subrange(0, 7)[0]);
                    assert(h@[1] == h@.subrange(0, 7)[1]);
                    assert(h@[2] == h@.subrange(0, 7)[2]);
                    assert(h@[3] == h@.subrange(0, 7)[3]);
                    assert(h@[4] == h@.subrange(0, 7)[4]);
                    assert(h@[5] == h@.subrange(0, 7)[5]);
                    assert(h@[6] == h@.subrange(0, 7)[6]);
                }
            }
            return Err(Status::Unauthorized);
        }
        assert(h@.subrange(0, 7) =~= "Bearer "@);
        let token = h.substring_char(7, n);
        match verify_token(token, secret) {
            Some(user_id) => Ok(AuthUser { user_id }),
            None => Err(Status::Unauthorized),
        }
    }
}

/// The most bytes of a comment's content that are kept.
pub const COMMENT_MAX_BYTES: usize = 141;

/// The content kept of a comment: all of it when it is shorter than 141 bytes, else its
/// first 141 bytes. `requires`: when the content is longer, byte 141 starts a character
/// (the comment handler panics on other contents before it gets here).
pub fn truncate_comment(content: &str) -> (r: String)
    requires
        content.spec_bytes().len() < 141 || is_char_boundary(content.spec_bytes(), 141),
    ensures
        content.spec_bytes().len() < 141 ==> r@ == content@,
        content.spec_bytes().len() >= 141 ==> encode_utf8(r@) == content.spec_bytes().subrange(
            0,
            141,
        ),
        encode_utf8(r@).len() <= 141,
        encode_utf8(r@) == content.spec_bytes().subrange(0, encode_utf8(r@).len() as int),
{
    if content.as_bytes().len() < COMMENT_MAX_BYTES {
        let r = String::from_str(content);
        assert(content.spec_bytes() == encode_utf8(content@));
        assert(content.spec_bytes().subrange(0, content.spec_bytes().len() as int)
            =~= content.spec_bytes());
        r
    } else {
        let parts = content.split_at(COMMENT_MAX_BYTES);
        let head = parts.0;
        assert(head.spec_bytes() =~= content.spec_bytes().subrange(0, 141));
        assert(head.spec_bytes() == encode_utf8(head@));
        let r = String::from_str(head);
        assert(encode_utf8(r@) == head.spec_bytes());
        r
    }
}

/// The name shown for a poster: the given display name, or `無名` ("nameless").
pub fn display_name_or_anonymous(display_name: &Option<String>) -> (r: String)
    ensures
        r@ == match display_name {
            Some(n) => n@,
            None => "無名"@,
        },
{
    match display_name {
        Some(n) => n.clone(),
        None => String::from_str("無名"),
    }
}

/// The body of a comment post.
#[derive(Clone, Debug)]
pub struct PostCommentPayload {
    pub display_name: Option<String>,
    pub content: String,
}

/// The event announcing a posted comment: its identifier, the poster's shown name, the
/// kept content, and the poster's public name.
pub fn comment_posted_event(comment_id: Uid, payload: &PostCommentPayload, content: String, auth: &AuthUser) -> (e: ServerEvent)
    ensures
        match e {
            ServerEvent::CommentPosted { id, display_name, content: c, user_identifier: u } => {
                &&& id == comment_id
                &&& display_name@ == match payload.display_name {
                    Some(n) => n@,
                    None => "無名"@,
                }
                &&& c == content
                &&& u@ == user_identifier(auth.user_id@)
            },
            _ => false,
        },
{
    ServerEvent::CommentPosted {
        id: comment_id,
        display_name: display_name_or_anonymous(&payload.display_name),
        content: content,
        user_identifier: generate_user_identifier(&auth.user_id),
    }
}

/// Query of an image post: the poster, the room, an optional title, the presigned upload
/// URL the poster was handed, and an optional display name.
#[derive(Clone, Debug)]
pub struct PostImgQuery {
    pub user_id: Uid,
    pub room_id: Uid,
    pub title: Option<String>,
    pub presigned_url: String,
    pub display_name: Option<String>,
}

/// The event announcing a posted image: its identifier, its storage key as URL, its title,
/// the poster's shown name and public name.
pub fn image_posted_event(img_id: Uid, object_key: String, q: &PostImgQuery) -> (e: ServerEvent)
    ensures
        match e {
            ServerEvent::ImagePosted { id, url, title, display_name, user_identifier: u } => {
                &&& id == img_id
                &&& url == object_key
                &&& title == q.title
                &&& display_name@ == match q.display_name {
                    Some(n) => n@,
                    None => "無名"@,
                }
                &&& u@ == user_identifier(q.user_id@)
            },
            _ => false,
        },
{
    ServerEvent::ImagePosted {
        id: img_id,
        url: object_key,
        title: q.title.clone(),
        display_name: display_name_or_anonymous(&q.display_name),
        user_identifier: generate_user_identifier(&q.user_id),
    }
}

/// The storage key found for a presigned URL, or the answer when none was found: an image
/// may be committed only under a URL that was issued to its poster and has not expired.
pub fn object_key_or_bad_request(found: Option<String>) -> (r: Result<String, Status>)
    ensures
        match found {
            Some(k) => r == Ok::<String, Status>(k),
            None => r == Err::<String, Status>(Status::BadRequest),
        },
{
    match found {
        Some(k) => Ok(k),
        None => Err(Status::BadRequest),
    }
}

/// The event announcing a vote: the image, the opinion, and whether the voter had no vote
/// on the image before.
pub fn vote_event(q: &VoteQuery, existing: &Option<ImageVoteModel>) -> (e: ServerEvent)
    ensures
        e == (ServerEvent::VotedUpdated {
            image_id: q.img_id,
            is_good: q.is_good,
            is_new: existing is None,
        }),
{
    ServerEvent::VotedUpdated { image_id: q.img_id, is_good: q.is_good, is_new: existing.is_none() }
}

/// The answer to a request for a new user.
#[derive(Clone, Debug)]
pub struct GetUserIdStruct {
    pub user_id: Option<Uid>,
    pub user_identifier: Option<String>,
    pub token: Option<String>,
    pub success: bool,
}

/// The answer that hands out a newly created user: its identifier, its public name and
/// its token under `secret`.
pub fn grant_user_id(user_id: Uid, secret: &[u8]) -> (r: GetUserIdStruct)
    ensures
        r.user_id == Some(user_id),
        r.user_identifier matches Some(i) && i@ == user_identifier(user_id@),
        r.token matches Some(t) && t@ == token_text(user_id@, secret@) && token_user(
            t@,
            secret@,
        ) == Some(user_id@),
        r.success,
{
    let ident = generate_user_identifier(&user_id);
    let token = generate_token(&user_id, secret);
    GetUserIdStruct {
        user_id: Some(user_id),
        user_identifier: Some(ident),
        token: Some(token),
        success: true,
    }
}

/// The answer when no user could be created.
pub fn user_id_failure() -> (r: (Status, GetUserIdStruct))
    ensures
        r.0 == Status::InternalServerError,
        r.1.user_id is None && r.1.user_identifier is None && r.1.token is None && !r.1.success,
{
    (
        Status::InternalServerError,
        GetUserIdStruct { user_id: None, user_identifier: None, token: None, success: false },
    )
}

/// Query of a room lookup by keyword.
#[derive(Clone, Debug)]
pub struct GetRoomQuery {
    pub user_id: Uid,
    pub keyword: String,
}

/// The answer to a room lookup.
#[derive(Clone, Copy, Debug)]
pub struct GetRoomResult {
    pub room_id: Option<Uid>,
    pub success: bool,
}

/// The answer to a room lookup that found `found` (`None`: no undeleted room has the
/// keyword).
pub fn get_room_response(found: Option<Uid>) -> (r: (Status, GetRoomResult))
    ensures
        r.1.room_id == found,
        r.1.success == found is Some,
        r.0 == if found is Some {
            Status::Success
        } else {
            Status::BadRequest
        },
{
    match found {
        Some(id) => (Status::Success, GetRoomResult { room_id: Some(id), success: true }),
        None => (Status::BadRequest, GetRoomResult { room_id: None, success: false }),
    }
}

/// The answer to a room lookup that failed on storage.
pub fn get_room_failure() -> (r: (Status, GetRoomResult))
    ensures
        r.0 == Status::InternalServerError,
        r.1.room_id is None && !r.1.success,
{
    (Status::InternalServerError, GetRoomResult { room_id: None, success: false })
}

/// Query of a room creation: its keyword.
#[derive(Clone, Debug)]
pub struct PostRoomQuery {
    pub keyword: String,
}

/// Query of the images or the comments of a room.
#[derive(Clone, Copy, Debug)]
pub struct GetPostedQuery {
    pub room_id: Uid,
}

/// Query of the images of a room.
#[derive(Clone, Copy, Debug)]
pub struct GetPostedImgQuery {
    pub room_id: Uid,
}

/// The images of a room, or nothing on a storage failure.
#[derive(Clone, Debug)]
pub struct GetPostedImgResult {
    pub payload: Option<Vec<ImageModel>>,
    pub success: bool,
}

/// The comments of a room, or nothing on a storage failure.
#[derive(Clone, Debug)]
pub struct GetPostedComment {
    pub payload: Option<Vec<CommentModel>>,
    pub success: bool,
}

/// Query of the ban list of a room.
#[derive(Clone, Copy, Debug)]
pub struct GetBanUserQuery {
    pub room_id: Uid,
}

/// The public names banned from a room (`None`: the room has no ban list), or nothing on
/// a storage failure.
#[derive(Clone, Debug)]
pub struct GetBanUserResult {
    pub success: bool,
    pub banned_users: Option<Vec<String>>,
}

/// The answer to a listing of a room's images: `Some` holds what storage returned, `None`
/// stands for a storage failure.
pub fn posted_img_response(listing: Option<Vec<ImageModel>>) -> (r: (Status, GetPostedImgResult))
    ensures
        r.1.payload == listing,
        r.1.success == listing is Some,
        r.0 == if listing is Some {
            Status::Success
        } else {
            Status::InternalServerError
        },
{
    let ok = listing.is_some();
    let status = if ok {
        Status::Success
    } else {
        Status::InternalServerError
    };
    (status, GetPostedImgResult { payload: listing, success: ok })
}

/// The answer to a listing of a room's comments: `Some` holds what storage returned,
/// `None` stands for a storage failure.
pub fn posted_comment_response(listing: Option<Vec<CommentModel>>) -> (r: (Status, GetPostedComment))
    ensures
        r.1.payload == listing,
        r.1.success == listing is Some,
        r.0 == if listing is Some {
            Status::Success
        } else {
            Status::InternalServerError
        },
{
    let ok = listing.is_some();
    let status = if ok {
        Status::Success
    } else {
        Status::InternalServerError
    };
    (status, GetPostedComment { payload: listing, success: ok })
}

/// The answer to a ban-list request: `Ok` holds what storage returned (`None` when the room
/// has no ban list), `Err` stands for a storage failure.
pub fn ban_list_response(listing: Result<Option<Vec<String>>, ()>) -> (r: (Status, GetBanUserResult))
    ensures
        match listing {
            Ok(l) => r.0 == Status::Success && r.1.success && r.1.banned_users == l,
            Err(_) => r.0 == Status::InternalServerError && !r.1.success && r.1.banned_users is None,
        },
{
    match listing {
        Ok(l) => (Status::Success, GetBanUserResult { success: true, banned_users: l }),
        Err(_) => (Status::InternalServerError, GetBanUserResult { success: false, banned_users: None }),
    }
}

/// The outcome of a vote, as the board reports it.
#[derive(Clone, Copy, Debug)]
pub struct VoteResult {
    pub img_id: Uid,
    pub is_good: bool,
    pub is_new: bool,
}

/// The length of a rate-limit window, in seconds.
pub const RATE_LIMIT_WINDOW_SECS: u64 = 60;

/// What the rate limiter does for the request that brought a client's counter to `count`.
#[derive(Clone, Copy, Debug)]
pub struct RateLimitStep {
    /// Start the window: let the counter expire after `RATE_LIMIT_WINDOW_SECS`.
    pub set_expiry: bool,
    /// Refuse the request with `TooManyRequests`.
    pub too_many: bool,
}

/// Whether the request that brought its client's counter to `count` is let through.
pub open spec fn admitted(count: int, req_per_minute: int) -> bool {
    count <= req_per_minute
}

/// How many of the requests that bring a counter to 1, 2, ..., `m` in turn are let through.
pub open spec fn admitted_in_window(m: nat, req_per_minute: int) -> nat
    decreases m,
{
    if m == 0 {
        0
    } else {
        admitted_in_window((m - 1) as nat, req_per_minute) + if admitted(m as int, req_per_minute) {
            1nat
        } else {
            0nat
        }
    }
}

/// The rate limiter's decision: the first request of a window starts the window, and a
/// request beyond the `req_per_minute`-th of its window is refused.
pub fn rate_limit_decision(count: usize, req_per_minute: usize) -> (r: RateLimitStep)
    ensures
        r.set_expiry == (count == 1),
        r.too_many == (count > req_per_minute),
        r.too_many == !admitted(count as int, req_per_minute as int),
{
    RateLimitStep { set_expiry: count == 1, too_many: count > req_per_minute }
}

/// Within one window, whose requests bring the client's counter to 1, 2, ..., `m` in turn,
/// the limiter lets through exactly `min(m, req_per_minute)` of them: the first ones; once
/// a request is refused, every later request of the window is refused too.
pub proof fn window_admits_the_first(m: nat, req_per_minute: nat)
    ensures
        admitted_in_window(m, req_per_minute as int) == if m < req_per_minute {
            m
        } else {
            req_per_minute
        },
        forall|a: int, b: int|
            1 <= a <= b && !#[trigger] admitted(a, req_per_minute as int) ==> !#[trigger] admitted(
                b,
                req_per_minute as int,
            ),
    decreases m,
{
    if m > 0 {
        window_admits_the_first((m - 1) as nat, req_per_minute);
    }
}

} // verus!
