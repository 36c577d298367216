use roomcast::ids::Uid;
use roomcast::repository::{
    comment_deletion, image_deletion, is_comment_in_room, is_img_deleted, is_img_in_room,
    is_room_master, new_comment, new_image, new_room, room_deletion, upsert_vote_write,
    vote_good_write, CommentModel, ImageModel, ImageVoteModel, RoomModel, VoteWrite,
};

fn u(n: u8) -> Uid {
    Uid { bytes: [n; 16] }
}

fn room(master: u8, deleted: Option<i64>) -> RoomModel {
    RoomModel { id: u(2), keyword: "cats".to_string(), master_id: u(master), created_at: 10, deleted_at: deleted }
}

fn image(room: u8, deleted: Option<i64>) -> ImageModel {
    ImageModel {
        id: u(4),
        title: None,
        score: 0,
        created_at: 10,
        deleted_at: deleted,
        room_id: u(room),
        user_id: u(1),
        object_key: "k".to_string(),
    }
}

fn comment(room: u8) -> CommentModel {
    CommentModel {
        id: u(3),
        room_id: u(room),
        user_id: u(1),
        content: "c".to_string(),
        display_name: None,
        created_at: 10,
        deleted_at: None,
    }
}

#[test]
fn uid_equality() {
    assert!(u(1).same_as(&u(1)));
    let mut b = [1u8; 16];
    b[15] = 2;
    assert!(!u(1).same_as(&Uid { bytes: b }));
}

#[test]
fn room_master_check() {
    assert!(is_room_master(&Some(room(1, None)), &u(1)));
    assert!(!is_room_master(&Some(room(1, None)), &u(9)));
    assert!(!is_room_master(&None, &u(1)));
}

#[test]
fn image_checks() {
    assert!(is_img_deleted(&Some(image(2, Some(5)))));
    assert!(!is_img_deleted(&Some(image(2, None))));
    assert!(!is_img_deleted(&None));
    assert!(is_img_in_room(&Some(image(2, None)), &u(2)));
    assert!(!is_img_in_room(&Some(image(2, None)), &u(3)));
    assert!(!is_img_in_room(&None, &u(2)));
}

#[test]
fn comment_in_room_check() {
    assert!(is_comment_in_room(&Some(comment(2)), &u(2)));
    assert!(!is_comment_in_room(&Some(comment(2)), &u(5)));
    assert!(!is_comment_in_room(&None, &u(2)));
}

#[test]
fn room_deletion_only_once() {
    let d = room_deletion(&room(1, None), 99).unwrap();
    assert_eq!(d.deleted_at, Some(99));
    assert_eq!(d.keyword, "cats");
    assert_eq!(d.created_at, 10);
    assert!(room_deletion(&room(1, Some(50)), 99).is_none());
}

#[test]
fn soft_deletions_stamp_now() {
    let i = image_deletion(image(2, Some(5)), 77);
    assert_eq!(i.deleted_at, Some(77));
    assert_eq!(i.object_key, "k");
    let c = comment_deletion(comment(2), 78);
    assert_eq!(c.deleted_at, Some(78));
    assert_eq!(c.content, "c");
}

#[test]
fn vote_writes() {
    match upsert_vote_write(None, u(1), u(4), true, 50) {
        VoteWrite::Insert(v) => {
            assert!(v.is_good && v.created_at == 50);
            assert_eq!(v.image_id.bytes, u(4).bytes);
            assert_eq!(v.user_id.bytes, u(1).bytes);
        }
        _ => panic!("expected insert"),
    }
    let old = ImageVoteModel { image_id: u(4), user_id: u(1), is_good: true, created_at: 20 };
    match upsert_vote_write(Some(old), u(1), u(4), false, 50) {
        VoteWrite::Update(v) => assert!(!v.is_good && v.created_at == 50),
        _ => panic!("expected update"),
    }
    match vote_good_write(Some(old), u(1), u(4), false, 50) {
        VoteWrite::Update(v) => assert!(!v.is_good && v.created_at == 20),
        _ => panic!("expected update"),
    }
    assert!(matches!(vote_good_write(None, u(1), u(4), false, 50), VoteWrite::Insert(v) if !v.is_good && v.created_at == 50));
}

#[test]
fn new_rows() {
    let i = new_image(u(2), u(1), Some("t".to_string()), "k".to_string(), 5);
    assert_eq!(i.score, 0);
    assert_eq!(i.deleted_at, None);
    assert_eq!(i.created_at, 5);
    let c = new_comment(u(2), u(1), None, "x".to_string(), 6);
    assert_eq!(c.content, "x");
    assert_eq!(c.deleted_at, None);
    let r = new_room("cats".to_string(), u(1), 7);
    assert_eq!(r.keyword, "cats");
    assert_eq!(r.master_id.bytes, u(1).bytes);
    assert_eq!(r.deleted_at, None);
}
