//! The stored records (users' rooms, images, votes and comments), and the decisions that
//! the storage functions take on the records they read.
use crate::ids::Uid;
use vstd::prelude::*;

verus! {

/// A room: its keyword, its master, and when it was created and (softly) deleted, in
/// microseconds since the Unix epoch.
#[derive(Clone, Debug)]
pub struct RoomModel {
    pub id: Uid,
    pub keyword: String,
    pub master_id: Uid,
    pub created_at: i64,
    pub deleted_at: Option<i64>,
}

/// A posted image.
#[derive(Clone, Debug)]
pub struct ImageModel {
    pub id: Uid,
    pub title: Option<String>,
    pub score: i32,
    pub created_at: i64,
    pub deleted_at: Option<i64>,
    pub room_id: Uid,
    pub user_id: Uid,
    pub object_key: String,
}

/// A user's vote on an image.
#[derive(Clone, Copy, Debug)]
pub struct ImageVoteModel {
    pub image_id: Uid,
    pub user_id: Uid,
    pub is_good: bool,
    pub created_at: i64,
}

/// A posted comment.
#[derive(Clone, Debug)]
pub struct CommentModel {
    pub id: Uid,
    pub room_id: Uid,
    pub user_id: Uid,
    pub content: String,
    pub display_name: Option<String>,
    pub created_at: i64,
    pub deleted_at: Option<i64>,
}

impl Uid {
    /// Whether two identifiers are the same.
    pub fn same_as(&self, other: &Uid) -> (b: bool)
        ensures
            b == (self@ == other@),
    {
        let mut i: usize = 0;
        while i < 16
            invariant
                i <= 16,
                self@.len() == 16,
                other@.len() == 16,
                forall|j: int| 0 <= j < i ==> self@[j] == other@[j],
            decreases 16 - i,
        {
            if self.bytes[i] != other.bytes[i] {
                return false;
            }
            i = i + 1;
        }
        assert(self@ =~= other@);
        true
    }
}

/// `check_if_he_is_authorized` on the room it read: the room exists and the user is its
/// master.
pub fn is_room_master(room: &Option<RoomModel>, user_id: &Uid) -> (b: bool)
    ensures
        b == match room {
            Some(r) => r.master_id@ == user_id@,
            None => false,
        },
{
    match room {
        Some(r) => r.master_id.same_as(user_id),
        None => false,
    }
}

/// `check_if_img_deleted` on the image it read: the image exists and has been deleted.
pub fn is_img_deleted(img: &Option<ImageModel>) -> (b: bool)
    ensures
        b == match img {
            Some(m) => m.deleted_at is Some,
            None => false,
        },
{
    match img {
        Some(m) => m.deleted_at.is_some(),
        None => false,
    }
}

/// `check_if_room_has_img` on the image it read: the image exists and is in the room.
pub fn is_img_in_room(img: &Option<ImageModel>, room_id: &Uid) -> (b: bool)
    ensures
        b == match img {
            Some(m) => m.room_id@ == room_id@,
            None => false,
        },
{
    match img {
        Some(m) => m.room_id.same_as(room_id),
        None => false,
    }
}

/// `check_if_room_has_comment` on the comment it read: the comment exists and is in the
/// room.
pub fn is_comment_in_room(comment: &Option<CommentModel>, room_id: &Uid) -> (b: bool)
    ensures
        b == match comment {
            Some(m) => m.room_id@ == room_id@,
            None => false,
        },
{
    match comment {
        Some(m) => m.room_id.same_as(room_id),
        None => false,
    }
}

/// What `delete_room` writes for the room it read: the room marked deleted at `now`, or
/// nothing when it was deleted already.
pub fn room_deletion(room: &RoomModel, now: i64) -> (r: Option<RoomModel>)
    ensures
        match r {
            Some(d) => room.deleted_at is None && d.id == room.id && d.keyword == room.keyword
                && d.master_id == room.master_id && d.created_at == room.created_at
                && d.deleted_at == Some(now),
            None => room.deleted_at is Some,
        },
{
    if room.deleted_at.is_none() {
        Some(
            RoomModel {
                id: room.id,
                keyword: room.keyword.clone(),
                master_id: room.master_id,
                created_at: room.created_at,
                deleted_at: Some(now),
            },
        )
    } else {
        None
    }
}

/// What `delete_img` writes for the image it read: the image marked deleted at `now`.
pub fn image_deletion(img: ImageModel, now: i64) -> (r: ImageModel)
    ensures
        r == (ImageModel { deleted_at: Some(now), ..img }),
{
    ImageModel { deleted_at: Some(now), ..img }
}

/// What `delete_comment` writes for the comment it read: the comment marked deleted at
/// `now`.
pub fn comment_deletion(comment: CommentModel, now: i64) -> (r: CommentModel)
    ensures
        r == (CommentModel { deleted_at: Some(now), ..comment }),
{
    CommentModel { deleted_at: Some(now), ..comment }
}

/// A write of a vote: a new row, or the new state of an existing row.
#[derive(Clone, Copy, Debug)]
pub enum VoteWrite {
    Insert(ImageVoteModel),
    Update(ImageVoteModel),
}

/// What `upsert_img_vote` writes: a new vote at `now`, or the existing vote with the new
/// opinion and its time reset to `now`.
pub fn upsert_vote_write(existing: Option<ImageVoteModel>, user_id: Uid, img_id: Uid, is_good: bool, now: i64) -> (w: VoteWrite)
    ensures
        w == match existing {
            None => VoteWrite::Insert(
                ImageVoteModel { image_id: img_id, user_id: user_id, is_good: is_good, created_at: now },
            ),
            Some(m) => VoteWrite::Update(ImageVoteModel { is_good: is_good, created_at: now, ..m }),
        },
{
    match existing {
        None => VoteWrite::Insert(
            ImageVoteModel { image_id: img_id, user_id: user_id, is_good: is_good, created_at: now },
        ),
        Some(m) => VoteWrite::Update(ImageVoteModel { is_good: is_good, created_at: now, ..m }),
    }
}

/// What `vote_good` writes: a new vote at `now`, or the existing vote with the new opinion
/// and its first time.
pub fn vote_good_write(existing: Option<ImageVoteModel>, user_id: Uid, img_id: Uid, is_good: bool, now: i64) -> (w: VoteWrite)
    ensures
        w == match existing {
            None => VoteWrite::Insert(
                ImageVoteModel { image_id: img_id, user_id: user_id, is_good: is_good, created_at: now },
            ),
            Some(m) => VoteWrite::Update(ImageVoteModel { is_good: is_good, ..m }),
        },
{
    match existing {
        None => VoteWrite::Insert(
            ImageVoteModel { image_id: img_id, user_id: user_id, is_good: is_good, created_at: now },
        ),
        Some(m) => VoteWrite::Update(ImageVoteModel { is_good: is_good, ..m }),
    }
}

/// A new image row before the database gives it an identifier.
#[derive(Clone, Debug)]
pub struct NewImage {
    pub title: Option<String>,
    pub room_id: Uid,
    pub user_id: Uid,
    pub object_key: String,
    pub score: i32,
    pub created_at: i64,
    pub deleted_at: Option<i64>,
}

/// What `commit_img` inserts: the image with score 0, created at `now`, not deleted.
pub fn new_image(room_id: Uid, user_id: Uid, title: Option<String>, object_key: String, now: i64) -> (r: NewImage)
    ensures
        r == (NewImage {
            title: title,
            room_id: room_id,
            user_id: user_id,
            object_key: object_key,
            score: 0,
            created_at: now,
            deleted_at: None,
        }),
{
    NewImage { title, room_id, user_id, object_key, score: 0, created_at: now, deleted_at: None }
}

/// A new comment row before the database gives it an identifier.
#[derive(Clone, Debug)]
pub struct NewComment {
    pub room_id: Uid,
    pub user_id: Uid,
    pub content: String,
    pub display_name: Option<String>,
    pub created_at: i64,
    pub deleted_at: Option<i64>,
}

/// What `post_comment` of the repository inserts: the comment created at `now`, not
/// deleted.
pub fn new_comment(room_id: Uid, user_id: Uid, display_name: Option<String>, content: String, now: i64) -> (r: NewComment)
    ensures
        r == (NewComment {
            room_id: room_id,
            user_id: user_id,
            content: content,
            display_name: display_name,
            created_at: now,
            deleted_at: None,
        }),
{
    NewComment { room_id, user_id, content, display_name, created_at: now, deleted_at: None }
}

/// A new room row before the database gives it an identifier.
#[derive(Clone, Debug)]
pub struct NewRoom {
    pub keyword: String,
    pub master_id: Uid,
    pub created_at: i64,
    pub deleted_at: Option<i64>,
}

/// What `generate_room` inserts: the room of `keyword` mastered by `master_id`, created at
/// `now`, not deleted.
pub fn new_room(keyword: String, master_id: Uid, now: i64) -> (r: NewRoom)
    ensures
        r == (NewRoom { keyword: keyword, master_id: master_id, created_at: now, deleted_at: None }),
{
    NewRoom { keyword, master_id, created_at: now, deleted_at: None }
}

} // verus!
