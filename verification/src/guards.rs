//! The checks that guard each request, and the runner that decides, answer by answer,
//! which check to make next and when to stop.
//!
//! A handler's checks are reads (of the database or of Redis) that answer yes or no. They
//! are made one at a time, in order; the first answer that differs from what the check
//! expects ends the request with that check's status, and the request goes on only when
//! every check has answered as expected.
use crate::ids::Uid;
use crate::keys::{
    ban_tag, generate_ban_tag_from_user_identifier, generate_user_identifier, user_identifier,
};
use vstd::prelude::*;

verus! {

/// The status a request is answered with.
#[derive(Clone, Copy, Debug, PartialEq, Eq, Structural)]
pub enum Status {
    Success,
    BadRequest,
    Unauthorized,
    Forbidden,
    TooManyRequests,
    InternalServerError,
}

/// The HTTP code of a status.
pub open spec fn status_code(s: Status) -> u16 {
    match s {
        Status::Success => 200,
        Status::BadRequest => 400,
        Status::Unauthorized => 401,
        Status::Forbidden => 403,
        Status::TooManyRequests => 429,
        Status::InternalServerError => 500,
    }
}

impl Status {
    /// The HTTP code of this status.
    pub fn code(&self) -> (c: u16)
        ensures
            c == status_code(*self),
    {
        match self {
            Status::Success => 200,
            Status::BadRequest => 400,
            Status::Unauthorized => 401,
            Status::Forbidden => 403,
            Status::TooManyRequests => 429,
            Status::InternalServerError => 500,
        }
    }
}

/// A yes-or-no read that guards a request.
#[derive(Clone, Debug)]
pub enum Check {
    /// A user with this identifier exists.
    UserExists(Uid),
    /// A room with this identifier exists.
    RoomExists(Uid),
    /// This ban key is present in Redis.
    BanTagExists(String),
    /// A comment with this identifier exists.
    CommentExists(Uid),
    /// The comment exists and belongs to the room.
    RoomHasComment { comment: Uid, room: Uid },
    /// The image exists and belongs to the room.
    RoomHasImg { img: Uid, room: Uid },
    /// The room exists and the user is its master.
    IsRoomMaster { user: Uid, room: Uid },
    /// The user's comment waiting mark is absent.
    CommentWaitsEnough(Uid),
    /// The room's ban list holds this public name.
    IsBanned { room: Uid, identifier: String },
}

/// A check as plain values.
pub enum CheckView {
    UserExists(Seq<u8>),
    RoomExists(Seq<u8>),
    BanTagExists(Seq<char>),
    CommentExists(Seq<u8>),
    RoomHasComment(Seq<u8>, Seq<u8>),
    RoomHasImg(Seq<u8>, Seq<u8>),
    IsRoomMaster(Seq<u8>, Seq<u8>),
    CommentWaitsEnough(Seq<u8>),
    IsBanned(Seq<u8>, Seq<char>),
}

impl View for Check {
    type V = CheckView;

    open spec fn view(&self) -> CheckView {
        match self {
            Check::UserExists(u) => CheckView::UserExists(u@),
            Check::RoomExists(r) => CheckView::RoomExists(r@),
            Check::BanTagExists(t) => CheckView::BanTagExists(t@),
            Check::CommentExists(c) => CheckView::CommentExists(c@),
            Check::RoomHasComment { comment, room } => CheckView::RoomHasComment(comment@, room@),
            Check::RoomHasImg { img, room } => CheckView::RoomHasImg(img@, room@),
            Check::IsRoomMaster { user, room } => CheckView::IsRoomMaster(user@, room@),
            Check::CommentWaitsEnough(u) => CheckView::CommentWaitsEnough(u@),
            Check::IsBanned { room, identifier } => CheckView::IsBanned(room@, identifier@),
        }
    }
}

/// A check, the answer it must give for the request to go on, and the status that ends
/// the request otherwise.
#[derive(Clone, Debug)]
pub struct Guard {
    pub check: Check,
    pub expect: bool,
    pub on_fail: Status,
}

/// A guard as plain values.
pub struct GuardView {
    pub check: CheckView,
    pub expect: bool,
    pub on_fail: Status,
}

impl View for Guard {
    type V = GuardView;

    open spec fn view(&self) -> GuardView {
        GuardView { check: self.check@, expect: self.expect, on_fail: self.on_fail }
    }
}

/// The guards as plain values.
pub open spec fn guards_view(gs: Seq<Guard>) -> Seq<GuardView> {
    gs.map_values(|g: Guard| g@)
}

/// What to do after the answers received so far.
#[derive(Clone, Copy, Debug, PartialEq, Eq, Structural)]
pub enum Next {
    /// Make the check at this position.
    Ask(usize),
    /// End the request with this status.
    Stop(Status),
    /// Every check answered as expected: carry out the request.
    Proceed,
}

/// The first `n` answers are all as the guards expect.
pub open spec fn all_pass(guards: Seq<GuardView>, answers: Seq<bool>, n: int) -> bool {
    forall|j: int| 0 <= j < n ==> answers[j] == guards[j].expect
}

/// The decision after `answers`: the first unexpected answer stops the request with its
/// guard's status; if there is none, the next check is asked, or the request proceeds
/// when every check has answered.
pub open spec fn next_after(guards: Seq<GuardView>, answers: Seq<bool>, n: Next) -> bool {
    match n {
        Next::Stop(s) => exists|i: int|
            0 <= i < answers.len() && all_pass(guards, answers, i) && answers[i]
                != guards[i].expect && s == guards[i].on_fail,
        Next::Ask(k) => k == answers.len() && answers.len() < guards.len() && all_pass(
            guards,
            answers,
            answers.len() as int,
        ),
        Next::Proceed => answers.len() == guards.len() && all_pass(
            guards,
            answers,
            answers.len() as int,
        ),
    }
}

/// Decides what a request does after the answers it has received to its guards.
pub fn next_guard(guards: &Vec<Guard>, answers: &Vec<bool>) -> (n: Next)
    requires
        answers@.len() <= guards@.len(),
    ensures
        next_after(guards_view(guards@), answers@, n),
{
    let ghost gv = guards_view(guards@);
    let mut i: usize = 0;
    while i < answers.len()
        invariant
            i <= answers@.len() <= guards@.len(),
            gv == guards_view(guards@),
            all_pass(gv, answers@, i as int),
        decreases answers@.len() - i,
    {
        if answers[i] != guards[i].expect {
            assert(gv[i as int] == guards@[i as int]@);
            return Next::Stop(guards[i].on_fail);
        }
        assert(gv[i as int] == guards@[i as int]@);
        i = i + 1;
    }
    if answers.len() < guards.len() {
        Next::Ask(answers.len())
    } else {
        Next::Proceed
    }
}

/// The guards of `check_if_he_can_take_action_in_room`, each ending a request with
/// `Forbidden`: the user exists, the room exists, and both the user's ban key for the
/// room and the user's ban key for every room are present, as that function asks it.
pub open spec fn can_take_action_view(user: Seq<u8>, room: Seq<u8>) -> Seq<GuardView> {
    seq![
        GuardView { check: CheckView::UserExists(user), expect: true, on_fail: Status::Forbidden },
        GuardView { check: CheckView::RoomExists(room), expect: true, on_fail: Status::Forbidden },
        GuardView {
            check: CheckView::BanTagExists(ban_tag(user_identifier(user), Some(room))),
            expect: true,
            on_fail: Status::Forbidden,
        },
        GuardView {
            check: CheckView::BanTagExists(ban_tag(user_identifier(user), None)),
            expect: true,
            on_fail: Status::Forbidden,
        },
    ]
}

/// Appends the guards of `can_take_action_view` to `gs`.
fn push_can_take_action(gs: &mut Vec<Guard>, user_id: &Uid, room_id: &Uid)
    ensures
        guards_view(final(gs)@) == guards_view(old(gs)@) + can_take_action_view(user_id@, room_id@),
{
    let ident = generate_user_identifier(user_id);
    let room_tag = generate_ban_tag_from_user_identifier(ident.as_str(), Some(room_id));
    let all_tag = generate_ban_tag_from_user_identifier(ident.as_str(), None);
    let ghost before = gs@;
    gs.push(Guard { check: Check::UserExists(*user_id), expect: true, on_fail: Status::Forbidden });
    gs.push(Guard { check: Check::RoomExists(*room_id), expect: true, on_fail: Status::Forbidden });
    gs.push(Guard { check: Check::BanTagExists(room_tag), expect: true, on_fail: Status::Forbidden });
    gs.push(Guard { check: Check::BanTagExists(all_tag), expect: true, on_fail: Status::Forbidden });
    assert(guards_view(gs@) =~= guards_view(before) + can_take_action_view(user_id@, room_id@));
}

/// The guards that decide whether a user may act in a room.
pub fn can_take_action_guards(user_id: &Uid, room_id: &Uid) -> (gs: Vec<Guard>)
    ensures
        guards_view(gs@) == can_take_action_view(user_id@, room_id@),
{
    let mut gs = Vec::new();
    push_can_take_action(&mut gs, user_id, room_id);
    assert(guards_view(Seq::<Guard>::empty()) =~= Seq::<GuardView>::empty());
    assert(Seq::<GuardView>::empty() + can_take_action_view(user_id@, room_id@) =~= can_take_action_view(user_id@, room_id@));
    gs
}

/// The decision is a function of the answers: two decisions that both fit the same
/// answers are the same decision.
pub proof fn decision_is_unique(guards: Seq<GuardView>, answers: Seq<bool>, n1: Next, n2: Next)
    requires
        next_after(guards, answers, n1),
        next_after(guards, answers, n2),
    ensures
        n1 == n2,
{
    if n1 is Stop {
        let i = choose|i: int|
            0 <= i < answers.len() && all_pass(guards, answers, i) && answers[i]
                != guards[i].expect && n1->Stop_0 == guards[i].on_fail;
        if n2 is Stop {
            let k = choose|k: int|
                0 <= k < answers.len() && all_pass(guards, answers, k) && answers[k]
                    != guards[k].expect && n2->Stop_0 == guards[k].on_fail;
            if i < k {
                assert(answers[i] == guards[i].expect);
            } else if k < i {
                assert(answers[k] == guards[k].expect);
            }
        } else {
            assert(answers[i] == guards[i].expect);
        }
    } else if n2 is Stop {
        let k = choose|k: int|
            0 <= k < answers.len() && all_pass(guards, answers, k) && answers[k]
                != guards[k].expect && n2->Stop_0 == guards[k].on_fail;
        assert(answers[k] == guards[k].expect);
    }
}

/// A refusal is final: answers received after a request was stopped do not change the
/// status it was stopped with.
pub proof fn refusal_is_final(guards: Seq<GuardView>, answers: Seq<bool>, more: Seq<bool>, s: Status)
    requires
        next_after(guards, answers, Next::Stop(s)),
        answers.len() + more.len() <= guards.len(),
    ensures
        next_after(guards, answers + more, Next::Stop(s)),
{
    let i = choose|i: int|
        0 <= i < answers.len() && all_pass(guards, answers, i) && answers[i] != guards[i].expect
            && s == guards[i].on_fail;
    let all = answers + more;
    assert(all[i] == answers[i]);
    assert(all_pass(guards, all, i)) by {
        assert forall|j: int| 0 <= j < i implies all[j] == guards[j].expect by {
            assert(all[j] == answers[j]);
        }
    }
}

/// A request proceeds only when every one of its checks gave the expected answer.
pub proof fn proceed_needs_every_check(guards: Seq<GuardView>, answers: Seq<bool>, j: int)
    requires
        next_after(guards, answers, Next::Proceed),
        0 <= j < guards.len(),
    ensures
        answers[j] == guards[j].expect,
{
}

} // verus!
