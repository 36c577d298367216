use roomcast::engine::{
    ban_list_response, comment_posted_event, delete_ban_user_guards, delete_comment_guards,
    delete_room_guards, display_name_or_anonymous, get_room_failure, get_room_response,
    grant_user_id, image_posted_event, object_key_or_bad_request, post_ban_user_guards, post_comment_guards,
    posted_comment_response, posted_img_response, rate_limit_decision, truncate_comment,
    user_id_failure, vote_event, vote_guards, AuthUser, BanUserQuery, DeleteBanUserQuery,
    DeleteCommentQuery, DeleteRoomQuery, PostCommentPayload, PostCommentQuery, PostImgQuery,
    VoteQuery,
};
use roomcast::guards::{can_take_action_guards, next_guard, Check, Guard, Next, Status};
use roomcast::ids::Uid;
use roomcast::keys::{generate_ban_tag_from_user_identifier, generate_user_identifier};
use roomcast::repository::{ImageVoteModel};
use roomcast::token::{generate_token, verify_token};
use roomcast::ws::ServerEvent;

fn u(n: u8) -> Uid {
    Uid { bytes: [n; 16] }
}

fn auth(n: u8) -> AuthUser {
    AuthUser { user_id: u(n) }
}

fn run(guards: &Vec<Guard>, answers: &[bool]) -> Next {
    next_guard(guards, &answers.to_vec())
}

#[test]
fn status_codes() {
    assert_eq!(Status::Success.code(), 200);
    assert_eq!(Status::BadRequest.code(), 400);
    assert_eq!(Status::Unauthorized.code(), 401);
    assert_eq!(Status::Forbidden.code(), 403);
    assert_eq!(Status::TooManyRequests.code(), 429);
    assert_eq!(Status::InternalServerError.code(), 500);
}

#[test]
fn can_take_action_checks_user_room_and_both_ban_keys() {
    let g = can_take_action_guards(&u(1), &u(2));
    assert_eq!(g.len(), 4);
    assert!(matches!(g[0].check, Check::UserExists(x) if x.bytes == u(1).bytes));
    assert!(matches!(g[1].check, Check::RoomExists(x) if x.bytes == u(2).bytes));
    let ident = generate_user_identifier(&u(1));
    let room_tag = generate_ban_tag_from_user_identifier(&ident, Some(&u(2)));
    let all_tag = generate_ban_tag_from_user_identifier(&ident, None);
    assert!(matches!(&g[2].check, Check::BanTagExists(t) if *t == room_tag));
    assert!(matches!(&g[3].check, Check::BanTagExists(t) if *t == all_tag));
    for x in &g {
        assert!(x.expect);
        assert_eq!(x.on_fail, Status::Forbidden);
    }
}

#[test]
fn runner_asks_in_order_then_proceeds() {
    let g = can_take_action_guards(&u(1), &u(2));
    assert_eq!(run(&g, &[]), Next::Ask(0));
    assert_eq!(run(&g, &[true]), Next::Ask(1));
    assert_eq!(run(&g, &[true, true, true]), Next::Ask(3));
    assert_eq!(run(&g, &[true, true, true, true]), Next::Proceed);
}

#[test]
fn runner_stops_at_first_unexpected_answer() {
    let g = post_comment_guards(&PostCommentQuery { room_id: u(2) }, &auth(1));
    assert_eq!(g.len(), 5);
    assert_eq!(run(&g, &[true, false]), Next::Stop(Status::Forbidden));
    assert_eq!(run(&g, &[true, true, true, true, false]), Next::Stop(Status::TooManyRequests));
    assert_eq!(run(&g, &[true, true, true, true, true]), Next::Proceed);
}

#[test]
fn refusal_is_final_on_more_answers() {
    let g = post_comment_guards(&PostCommentQuery { room_id: u(2) }, &auth(1));
    assert_eq!(run(&g, &[false]), Next::Stop(Status::Forbidden));
    assert_eq!(run(&g, &[false, true, true]), Next::Stop(Status::Forbidden));
}

#[test]
fn delete_comment_guards_and_statuses() {
    let q = DeleteCommentQuery { comment_id: u(3), room_id: u(2) };
    let g = delete_comment_guards(&q, &auth(1));
    assert_eq!(g.len(), 7);
    assert!(matches!(g[4].check, Check::CommentExists(c) if c.bytes == u(3).bytes));
    assert!(matches!(g[5].check, Check::RoomHasComment { comment, room } if comment.bytes == u(3).bytes && room.bytes == u(2).bytes));
    assert!(matches!(g[6].check, Check::IsRoomMaster { user, room } if user.bytes == u(1).bytes && room.bytes == u(2).bytes));
    assert_eq!(run(&g, &[true, true, true, true, false]), Next::Stop(Status::BadRequest));
    assert_eq!(run(&g, &[true, true, true, true, true, false]), Next::Stop(Status::BadRequest));
    assert_eq!(run(&g, &[true, true, true, true, true, true, false]), Next::Stop(Status::Forbidden));
    assert_eq!(run(&g, &[true; 7]), Next::Proceed);
}

#[test]
fn vote_guards_and_statuses() {
    let q = VoteQuery { img_id: u(5), is_good: true, room_id: u(2) };
    let g = vote_guards(&q, &auth(1));
    assert_eq!(g.len(), 5);
    assert!(matches!(g[4].check, Check::RoomHasImg { img, room } if img.bytes == u(5).bytes && room.bytes == u(2).bytes));
    assert_eq!(run(&g, &[true, true, true, true, false]), Next::Stop(Status::BadRequest));
}

#[test]
fn ban_guards_check_the_master() {
    let q = BanUserQuery { room_id: u(2), master_id: u(9), user_identifier: "user-x".to_string() };
    let g = post_ban_user_guards(&q);
    assert_eq!(g.len(), 5);
    assert!(matches!(g[0].check, Check::UserExists(x) if x.bytes == u(9).bytes));
    assert!(matches!(g[4].check, Check::IsRoomMaster { user, room } if user.bytes == u(9).bytes && room.bytes == u(2).bytes));
    assert_eq!(run(&g, &[true, true, true, true, false]), Next::Stop(Status::Forbidden));
}

#[test]
fn lifting_a_ban_needs_the_caller_not_banned() {
    let q = DeleteBanUserQuery { user_identifier: "user-x".to_string(), room_id: u(2) };
    let g = delete_ban_user_guards(&q, &auth(1));
    assert_eq!(g.len(), 5);
    let ident = generate_user_identifier(&u(1));
    assert!(matches!(&g[4].check, Check::IsBanned { room, identifier } if room.bytes == u(2).bytes && *identifier == ident));
    assert!(!g[4].expect);
    assert_eq!(run(&g, &[true, true, true, true, true]), Next::Stop(Status::BadRequest));
    assert_eq!(run(&g, &[true, true, true, true, false]), Next::Proceed);
}

#[test]
fn room_deletion_guard() {
    let g = delete_room_guards(&DeleteRoomQuery { room_id: u(2) }, &auth(1));
    assert_eq!(g.len(), 1);
    assert_eq!(run(&g, &[false]), Next::Stop(Status::Forbidden));
    assert_eq!(run(&g, &[true]), Next::Proceed);
}

#[test]
fn authorization_header() {
    let secret = b"s";
    let t = generate_token(&u(7), secret);
    let ok = AuthUser::from_header(Some(&format!("Bearer {}", t)), secret).ok().unwrap();
    assert_eq!(ok.user_id.bytes, u(7).bytes);
    assert_eq!(AuthUser::from_header(None, secret).err(), Some(Status::Unauthorized));
    assert_eq!(AuthUser::from_header(Some(&t), secret).err(), Some(Status::Unauthorized));
    assert_eq!(AuthUser::from_header(Some(&format!("bearer {}", t)), secret).err(), Some(Status::Unauthorized));
    assert_eq!(AuthUser::from_header(Some("Bearer"), secret).err(), Some(Status::Unauthorized));
    assert_eq!(AuthUser::from_header(Some(&format!("Bearer {}", t)), b"other").err(), Some(Status::Unauthorized));
}

#[test]
fn comment_truncation() {
    assert_eq!(truncate_comment("hello"), "hello");
    let exact: String = "a".repeat(140);
    assert_eq!(truncate_comment(&exact), exact);
    let long: String = "b".repeat(200);
    assert_eq!(truncate_comment(&long), "b".repeat(141));
    let long141: String = "c".repeat(141);
    assert_eq!(truncate_comment(&long141), long141);
    // 47 three-byte characters are 141 bytes: the cut falls on a character boundary.
    let kana: String = "あ".repeat(60);
    assert_eq!(truncate_comment(&kana), "あ".repeat(47));
}

#[test]
fn display_name_default() {
    assert_eq!(display_name_or_anonymous(&None), "無名");
    assert_eq!(display_name_or_anonymous(&Some("bob".to_string())), "bob");
}

#[test]
fn comment_posted_event_fields() {
    let p = PostCommentPayload { display_name: None, content: "hi".to_string() };
    match comment_posted_event(u(3), &p, "hi".to_string(), &auth(1)) {
        ServerEvent::CommentPosted { id, display_name, content, user_identifier } => {
            assert_eq!(id.bytes, u(3).bytes);
            assert_eq!(display_name, "無名");
            assert_eq!(content, "hi");
            assert_eq!(user_identifier, generate_user_identifier(&u(1)));
        }
        _ => panic!("wrong event"),
    }
}

#[test]
fn image_posted_event_fields() {
    let q = PostImgQuery {
        user_id: u(1),
        room_id: u(2),
        title: Some("t".to_string()),
        presigned_url: "https://x".to_string(),
        display_name: Some("ann".to_string()),
    };
    match image_posted_event(u(4), "room/key".to_string(), &q) {
        ServerEvent::ImagePosted { id, url, title, display_name, user_identifier } => {
            assert_eq!(id.bytes, u(4).bytes);
            assert_eq!(url, "room/key");
            assert_eq!(title.as_deref(), Some("t"));
            assert_eq!(display_name, "ann");
            assert_eq!(user_identifier, generate_user_identifier(&u(1)));
        }
        _ => panic!("wrong event"),
    }
}

#[test]
fn vote_event_reports_new_votes() {
    let q = VoteQuery { img_id: u(5), is_good: false, room_id: u(2) };
    assert!(matches!(vote_event(&q, &None), ServerEvent::VotedUpdated { is_new: true, is_good: false, .. }));
    let old = ImageVoteModel { image_id: u(5), user_id: u(1), is_good: true, created_at: 7 };
    assert!(matches!(vote_event(&q, &Some(old)), ServerEvent::VotedUpdated { is_new: false, is_good: false, .. }));
}

#[test]
fn granted_user_id_carries_identifier_and_working_token() {
    let r = grant_user_id(u(8), b"key");
    assert!(r.success);
    assert_eq!(r.user_id.unwrap().bytes, u(8).bytes);
    assert_eq!(r.user_identifier.unwrap(), generate_user_identifier(&u(8)));
    let t = r.token.unwrap();
    assert_eq!(verify_token(&t, b"key").unwrap().bytes, u(8).bytes);
    let (s, f) = user_id_failure();
    assert_eq!(s, Status::InternalServerError);
    assert!(!f.success && f.user_id.is_none() && f.token.is_none() && f.user_identifier.is_none());
}

#[test]
fn room_lookup_answers() {
    let (s, r) = get_room_response(Some(u(2)));
    assert_eq!(s, Status::Success);
    assert!(r.success && r.room_id.unwrap().bytes == u(2).bytes);
    let (s, r) = get_room_response(None);
    assert_eq!(s, Status::BadRequest);
    assert!(!r.success && r.room_id.is_none());
    let (s, r) = get_room_failure();
    assert_eq!(s, Status::InternalServerError);
    assert!(!r.success);
}

#[test]
fn listing_answers() {
    let (s, r) = posted_img_response(Some(vec![]));
    assert_eq!(s, Status::Success);
    assert!(r.success && r.payload.unwrap().is_empty());
    let (s, r) = posted_img_response(None);
    assert_eq!(s, Status::InternalServerError);
    assert!(!r.success && r.payload.is_none());
    let (s, r) = posted_comment_response(None);
    assert_eq!(s, Status::InternalServerError);
    assert!(!r.success);
    let (s, r) = ban_list_response(Ok(Some(vec!["user-a".to_string()])));
    assert_eq!(s, Status::Success);
    assert_eq!(r.banned_users.unwrap(), vec!["user-a".to_string()]);
    let (s, r) = ban_list_response(Ok(None));
    assert_eq!(s, Status::Success);
    assert!(r.success && r.banned_users.is_none());
    let (s, r) = ban_list_response(Err(()));
    assert_eq!(s, Status::InternalServerError);
    assert!(!r.success);
}

#[test]
fn rate_limit_window() {
    let first = rate_limit_decision(1, 3);
    assert!(first.set_expiry && !first.too_many);
    let third = rate_limit_decision(3, 3);
    assert!(!third.set_expiry && !third.too_many);
    let fourth = rate_limit_decision(4, 3);
    assert!(!fourth.set_expiry && fourth.too_many);
    let zero_limit = rate_limit_decision(1, 0);
    assert!(zero_limit.set_expiry && zero_limit.too_many);
}

#[test]
fn a_window_lets_through_the_first_requests_only() {
    for limit in [0usize, 1, 3, 7] {
        for m in 0usize..12 {
            let through: Vec<usize> =
                (1..=m).filter(|&n| !rate_limit_decision(n, limit).too_many).collect();
            assert_eq!(through.len(), m.min(limit));
            assert_eq!(through, (1..=m.min(limit)).collect::<Vec<usize>>());
            let starts = (1..=m).filter(|&n| rate_limit_decision(n, limit).set_expiry).count();
            assert_eq!(starts, if m >= 1 { 1 } else { 0 });
        }
    }
}

#[test]
fn missing_object_key_is_a_bad_request() {
    assert_eq!(object_key_or_bad_request(Some("r/o".to_string())), Ok("r/o".to_string()));
    assert_eq!(object_key_or_bad_request(None), Err(Status::BadRequest));
}
