//! The events that the board pushes to the clients of a room over their web sockets, and
//! the registry of which client listens in which room.
//!
//! A client joins a room with a sender. Sending is the caller's work, over channels whose
//! outcome only the caller sees; this module decides who is sent what. An event broadcast
//! to a room goes once to each client of the room (`broadcast`); a client whose send
//! fails leaves the room (`leave_room`), and the clients left are told with `OthersDrop`,
//! each once (and so on, for as long as sends fail).
use crate::ids::Uid;
use vstd::prelude::*;

verus! {

/// An event pushed to every client of a room.
#[derive(Clone, Debug)]
pub enum ServerEvent {
    ImagePosted {
        id: Uid,
        url: String,
        title: Option<String>,
        display_name: String,
        user_identifier: String,
    },
    ImageDeleted { id: Uid },
    CommentPosted { id: Uid, display_name: String, content: String, user_identifier: String },
    CommentDeleted { id: Uid },
    VotedUpdated { image_id: Uid, is_good: bool, is_new: bool },
    UserBanned { his_identifier: String },
    ResolvedUserBan { his_identifier: String },
    RoomDeleted,
    OthersJoin,
    OthersDrop,
}

/// A client listening in a room, with the sender its events go to.
pub struct Member<T> {
    pub room_id: Uid,
    pub client_id: Uid,
    pub tx: T,
}

/// The room and the client of a member.
pub open spec fn member_key<T>(m: Member<T>) -> (Seq<u8>, Seq<u8>) {
    (m.room_id@, m.client_id@)
}

/// The (room, client) pairs of a list of members, in order.
pub open spec fn keys_of<T>(s: Seq<Member<T>>) -> Seq<(Seq<u8>, Seq<u8>)> {
    s.map_values(|m: Member<T>| member_key(m))
}

/// For each (room, client) pair of a list of members, the sender listed with it.
pub open spec fn map_of<T>(s: Seq<Member<T>>) -> Map<(Seq<u8>, Seq<u8>), T> {
    Map::new(
        |k: (Seq<u8>, Seq<u8>)| keys_of(s).contains(k),
        |k: (Seq<u8>, Seq<u8>)| s[keys_of(s).index_of(k)].tx,
    )
}

/// The clients of `room` in a registry's view.
pub open spec fn room_clients<T>(m: Map<(Seq<u8>, Seq<u8>), T>, room: Seq<u8>) -> Set<Seq<u8>> {
    Set::new(|c: Seq<u8>| m.contains_key((room, c)))
}

/// The bytes of each identifier of a list.
pub open spec fn uid_seq(s: Seq<Uid>) -> Seq<Seq<u8>> {
    s.map_values(|u: Uid| u@)
}

/// Which client listens in which room, with the sender of each.
pub struct WsManager<T> {
    members: Vec<Member<T>>,
}

impl<T> WsManager<T> {
    /// No client is registered twice in one room.
    #[verifier::type_invariant]
    spec fn wf(self) -> bool {
        keys_of(self.members@).no_duplicates()
    }
}

impl<T> View for WsManager<T> {
    type V = Map<(Seq<u8>, Seq<u8>), T>;

    /// For each (room, client) pair registered, the client's sender.
    closed spec fn view(&self) -> Map<(Seq<u8>, Seq<u8>), T> {
        map_of(self.members@)
    }
}

proof fn lemma_key_at<T>(s: Seq<Member<T>>, i: int)
    requires
        keys_of(s).no_duplicates(),
        0 <= i < s.len(),
    ensures
        keys_of(s)[i] == member_key(s[i]),
        map_of(s).contains_key(member_key(s[i])),
        map_of(s)[member_key(s[i])] == s[i].tx,
        keys_of(s).index_of(member_key(s[i])) == i,
{
    let k = member_key(s[i]);
    assert(keys_of(s)[i] == k);
    assert(keys_of(s).contains(k));
    let j = keys_of(s).index_of(k);
    assert(keys_of(s)[j] == k);
}

proof fn lemma_len<T>(s: Seq<Member<T>>)
    requires
        keys_of(s).no_duplicates(),
    ensures
        map_of(s).dom() == keys_of(s).to_set(),
        map_of(s).dom().finite(),
        map_of(s).dom().len() == s.len(),
{
    assert(map_of(s).dom() =~= keys_of(s).to_set());
    keys_of(s).unique_seq_to_set();
    vstd::seq_lib::seq_to_set_is_finite(keys_of(s));
}

/// Removing the member at `i` removes its pair from the view and keeps pairs unique.
proof fn lemma_remove_at<T>(s: Seq<Member<T>>, i: int)
    requires
        keys_of(s).no_duplicates(),
        0 <= i < s.len(),
    ensures
        keys_of(s.remove(i)).no_duplicates(),
        map_of(s.remove(i)) == map_of(s).remove(member_key(s[i])),
{
    let t = s.remove(i);
    let ks = keys_of(s);
    let key = member_key(s[i]);
    assert(keys_of(t) =~= ks.remove(i));
    assert forall|a: int, b: int|
        0 <= a < keys_of(t).len() && 0 <= b < keys_of(t).len() && a != b implies keys_of(t)[a]
        != keys_of(t)[b] by {
        let oa = if a < i { a } else { a + 1 };
        let ob = if b < i { b } else { b + 1 };
        assert(keys_of(t)[a] == ks[oa]);
        assert(keys_of(t)[b] == ks[ob]);
    }
    assert forall|k: (Seq<u8>, Seq<u8>)| #[trigger] keys_of(t).contains(k) <==> ks.contains(k) && k
        != key by {
        if keys_of(t).contains(k) {
            let a = keys_of(t).index_of(k);
            let oa = if a < i { a } else { a + 1 };
            assert(ks[oa] == k);
            assert(ks[i] == key);
            assert(oa != i);
        }
        if ks.contains(k) && k != key {
            let oa = ks.index_of(k);
            assert(ks[i] == key);
            assert(oa != i);
            let a = if oa < i { oa } else { oa - 1 };
            assert(keys_of(t)[a] == k);
        }
    }
    assert forall|k: (Seq<u8>, Seq<u8>)| #[trigger] map_of(t).contains_key(k) implies map_of(t)[k]
        == map_of(s)[k] by {
        let a = keys_of(t).index_of(k);
        let oa = if a < i { a } else { a + 1 };
        assert(t[a] == s[oa]);
        assert(ks[oa] == k);
        let oj = ks.index_of(k);
        assert(ks[oj] == k);
    }
    assert(map_of(t) =~= map_of(s).remove(key));
}

/// Replacing the member at `i` by one with the same pair changes only that pair's sender.
proof fn lemma_set_at<T>(s: Seq<Member<T>>, i: int, m: Member<T>)
    requires
        keys_of(s).no_duplicates(),
        0 <= i < s.len(),
        member_key(m) == member_key(s[i]),
    ensures
        keys_of(s.update(i, m)).no_duplicates(),
        map_of(s.update(i, m)) == map_of(s).insert(member_key(m), m.tx),
{
    let t = s.update(i, m);
    let ks = keys_of(s);
    assert(keys_of(t) =~= ks);
    assert forall|k: (Seq<u8>, Seq<u8>)| #[trigger] map_of(t).contains_key(k) implies map_of(t)[k]
        == map_of(s).insert(member_key(m), m.tx)[k] by {
        let a = keys_of(t).index_of(k);
        assert(keys_of(t)[a] == k);
        if k == member_key(m) {
            assert(ks[i] == k);
            assert(a == i);
        } else {
            assert(a != i);
            assert(t[a] == s[a]);
            let oj = ks.index_of(k);
            assert(ks[oj] == k);
        }
    }
    assert(ks[i] == member_key(m));
    assert(ks.contains(member_key(m)));
    assert(map_of(t).dom() =~= map_of(s).insert(member_key(m), m.tx).dom());
    assert(map_of(t) =~= map_of(s).insert(member_key(m), m.tx));
}

/// Appending a member with a new pair adds that pair to the view.
proof fn lemma_push<T>(s: Seq<Member<T>>, m: Member<T>)
    requires
        keys_of(s).no_duplicates(),
        !map_of(s).contains_key(member_key(m)),
    ensures
        keys_of(s.push(m)).no_duplicates(),
        map_of(s.push(m)) == map_of(s).insert(member_key(m), m.tx),
{
    let t = s.push(m);
    let ks = keys_of(s);
    let key = member_key(m);
    let n = ks.len();
    assert(keys_of(t) =~= ks.push(key));
    assert forall|a: int, b: int|
        0 <= a < keys_of(t).len() && 0 <= b < keys_of(t).len() && a != b implies keys_of(t)[a]
        != keys_of(t)[b] by {
        if a == n {
            assert(ks[b] == keys_of(t)[b]);
        } else if b == n {
            assert(ks[a] == keys_of(t)[a]);
        }
    }
    assert forall|k: (Seq<u8>, Seq<u8>)| #[trigger] keys_of(t).contains(k) <==> ks.contains(k) || k
        == key by {
        if keys_of(t).contains(k) {
            let a = keys_of(t).index_of(k);
            if a < n {
                assert(ks[a] == k);
            }
        }
        if ks.contains(k) {
            let oa = ks.index_of(k);
            assert(keys_of(t)[oa] == k);
        }
        if k == key {
            assert(keys_of(t)[n as int] == k);
        }
    }
    assert forall|k: (Seq<u8>, Seq<u8>)| #[trigger] map_of(t).contains_key(k) implies map_of(t)[k]
        == map_of(s).insert(key, m.tx)[k] by {
        let a = keys_of(t).index_of(k);
        assert(keys_of(t)[a] == k);
        if k == key {
            assert(a == n);
        } else {
            assert(a != n);
            assert(t[a] == s[a]);
            let oj = ks.index_of(k);
            assert(ks[oj] == k);
        }
    }
    assert(map_of(t) =~= map_of(s).insert(key, m.tx));
}

impl<T> WsManager<T> {
    /// An empty registry.
    pub fn new() -> (m: Self)
        ensures
            m@ == Map::<(Seq<u8>, Seq<u8>), T>::empty(),
    {
        let m = WsManager { members: Vec::new() };
        assert(map_of(m.members@) =~= Map::<(Seq<u8>, Seq<u8>), T>::empty());
        m
    }

    /// The number of (room, client) pairs registered.
    pub fn len(&self) -> (n: usize)
        ensures
            n == self@.dom().len(),
    {
        proof {
            use_type_invariant(self);
            lemma_len(self.members@);
        }
        self.members.len()
    }

    /// Whether the client listens in the room.
    pub fn is_member(&self, room_id: &Uid, client_id: &Uid) -> (b: bool)
        ensures
            b == self@.contains_key((room_id@, client_id@)),
    {
        match self.find(room_id, client_id) {
            Some(_) => true,
            None => false,
        }
    }

    /// The sender of the client in the room, if it listens there.
    pub fn sender(&self, room_id: &Uid, client_id: &Uid) -> (r: Option<&T>)
        ensures
            match r {
                Some(t) => self@.contains_key((room_id@, client_id@)) && *t == self@[(
                    room_id@,
                    client_id@,
                )],
                None => !self@.contains_key((room_id@, client_id@)),
            },
    {
        proof {
            use_type_invariant(self);
        }
        match self.find(room_id, client_id) {
            Some(i) => {
                proof {
                    lemma_key_at(self.members@, i as int);
                }
                Some(&self.members[i].tx)
            },
            None => None,
        }
    }

    fn find(&self, room_id: &Uid, client_id: &Uid) -> (r: Option<usize>)
        ensures
            match r {
                Some(i) => i < self.members@.len() && keys_of(self.members@)[i as int] == (
                    room_id@,
                    client_id@,
                ),
                None => !self@.contains_key((room_id@, client_id@)),
            },
    {
        proof {
            use_type_invariant(self);
        }
        let mut i: usize = 0;
        while i < self.members.len()
            invariant
                keys_of(self.members@).no_duplicates(),
                i <= self.members@.len(),
                forall|j: int| 0 <= j < i ==> keys_of(self.members@)[j] != (room_id@, client_id@),
            decreases self.members@.len() - i,
        {
            proof {
                lemma_key_at(self.members@, i as int);
            }
            if self.members[i].room_id.same_as(room_id) && self.members[i].client_id.same_as(
                client_id,
            ) {
                return Some(i);
            }
            i = i + 1;
        }
        proof {
            let ks = keys_of(self.members@);
            if ks.contains((room_id@, client_id@)) {
                let j = ks.index_of((room_id@, client_id@));
                assert(ks[j] == (room_id@, client_id@));
            }
        }
        None
    }

    fn remove_member(&mut self, room_id: &Uid, client_id: &Uid)
        ensures
            final(self)@ == old(self)@.remove((room_id@, client_id@)),
    {
        proof {
            use_type_invariant(&*self);
        }
        match self.find(room_id, client_id) {
            Some(i) => {
                let mut ms: Vec<Member<T>> = Vec::new();
                std::mem::swap(&mut ms, &mut self.members);
                let ghost before = ms@;
                proof {
                    lemma_key_at(before, i as int);
                    lemma_remove_at(before, i as int);
                }
                ms.remove(i);
                self.members = ms;
            },
            None => {
                assert(self@ =~= self@.remove((room_id@, client_id@)));
            },
        }
    }
}

/// Registers `client_id` in `room_id` with the sender `tx`, in place of any sender it had
/// there.
pub fn join_room<T>(manager: &mut WsManager<T>, room_id: Uid, client_id: Uid, tx: T)
    ensures
        final(manager)@ == old(manager)@.insert((room_id@, client_id@), tx),
{
    proof {
        use_type_invariant(&*manager);
    }
    let found = manager.find(&room_id, &client_id);
    let mut ms: Vec<Member<T>> = Vec::new();
    std::mem::swap(&mut ms, &mut manager.members);
    let ghost before = ms@;
    let m = Member { room_id, client_id, tx };
    match found {
        Some(i) => {
            proof {
                lemma_set_at(before, i as int, m);
            }
            ms.set(i, m);
        },
        None => {
            proof {
                lemma_push(before, m);
            }
            ms.push(m);
        },
    }
    manager.members = ms;
}

/// The clients that an event broadcast to `room_id` is sent to: each client of the room,
/// once.
pub fn broadcast<T>(manager: &WsManager<T>, room_id: &Uid) -> (r: Vec<Uid>)
    ensures
        uid_seq(r@).no_duplicates(),
        uid_seq(r@).to_set() == room_clients(manager@, room_id@),
{
    proof {
        use_type_invariant(manager);
    }
    let ghost ks = keys_of(manager.members@);
    let mut r: Vec<Uid> = Vec::new();
    let mut i: usize = 0;
    while i < manager.members.len()
        invariant
            ks == keys_of(manager.members@),
            ks.no_duplicates(),
            i <= manager.members@.len(),
            uid_seq(r@).no_duplicates(),
            forall|x: int|
                0 <= x < r@.len() ==> exists|j: int|
                    0 <= j < i && #[trigger] ks[j] == (room_id@, (#[trigger] r@[x])@),
            forall|j: int| 0 <= j < i && (#[trigger] ks[j]).0 == room_id@ ==> uid_seq(r@).contains(ks[j].1),
        decreases manager.members@.len() - i,
    {
        proof {
            lemma_key_at(manager.members@, i as int);
        }
        if manager.members[i].room_id.same_as(room_id) {
            let ghost old_r = r@;
            let c = manager.members[i].client_id;
            r.push(c);
            proof {
                assert(uid_seq(r@) =~= uid_seq(old_r).push(c@));
                assert(ks[i as int] == (room_id@, c@));
                assert forall|a: int, b: int|
                    0 <= a < uid_seq(r@).len() && 0 <= b < uid_seq(r@).len() && a != b implies uid_seq(
                    r@,
                )[a] != uid_seq(r@)[b] by {
                    let n = old_r.len() as int;
                    if a == n || b == n {
                        let x = if a == n { b } else { a };
                        assert(uid_seq(r@)[x] == old_r[x]@);
                        let j = choose|j: int| 0 <= j < i && #[trigger] ks[j] == (room_id@, old_r[x]@);
                        assert(j != i);
                    } else {
                        assert(uid_seq(r@)[a] == uid_seq(old_r)[a]);
                        assert(uid_seq(r@)[b] == uid_seq(old_r)[b]);
                    }
                }
                assert forall|x: int| 0 <= x < r@.len() implies exists|j: int|
                    0 <= j < i + 1 && #[trigger] ks[j] == (room_id@, (#[trigger] r@[x])@) by {
                    if x < old_r.len() {
                        assert(r@[x] == old_r[x]);
                        let j = choose|j: int| 0 <= j < i && #[trigger] ks[j] == (room_id@, old_r[x]@);
                        assert(ks[j] == (room_id@, r@[x]@));
                    } else {
                        assert(ks[i as int] == (room_id@, r@[x]@));
                    }
                }
                assert forall|j: int| 0 <= j < i + 1 && (#[trigger] ks[j]).0 == room_id@ implies uid_seq(
                    r@,
                ).contains(ks[j].1) by {
                    if j < i {
                        let x = choose|x: int| 0 <= x < uid_seq(old_r).len() && uid_seq(old_r)[x] == ks[j].1;
                        assert(uid_seq(r@)[x] == ks[j].1);
                    } else {
                        assert(uid_seq(r@)[old_r.len() as int] == ks[j].1);
                    }
                }
            }
        }
        i = i + 1;
    }
    proof {
        let m = manager@;
        assert forall|c: Seq<u8>| #[trigger] uid_seq(r@).to_set().contains(c) <==> room_clients(m, room_id@).contains(c) by {
            if uid_seq(r@).contains(c) {
                let x = choose|x: int| 0 <= x < uid_seq(r@).len() && uid_seq(r@)[x] == c;
                assert(uid_seq(r@)[x] == r@[x]@);
                let j = choose|j: int| 0 <= j < i && #[trigger] ks[j] == (room_id@, r@[x]@);
                assert(ks.contains((room_id@, c)));
            }
            if m.contains_key((room_id@, c)) {
                let j = ks.index_of((room_id@, c));
                assert(ks[j] == (room_id@, c));
            }
        }
        assert(uid_seq(r@).to_set() =~= room_clients(m, room_id@));
    }
    r
}

/// Removes `client_id` from `room_id`; the result is the clients left in the room, each
/// once, whom the departure is announced to with `OthersDrop`.
pub fn leave_room<T>(manager: &mut WsManager<T>, room_id: &Uid, client_id: &Uid) -> (r: Vec<Uid>)
    ensures
        final(manager)@ == old(manager)@.remove((room_id@, client_id@)),
        uid_seq(r@).no_duplicates(),
        uid_seq(r@).to_set() == room_clients(final(manager)@, room_id@),
{
    manager.remove_member(room_id, client_id);
    broadcast(manager, room_id)
}

} // verus!
