use std::cell::RefCell;

use roomcast::ids::Uid;
use roomcast::ws::{broadcast, join_room, leave_room, ServerEvent, WsManager};

fn u(n: u8) -> Uid {
    Uid { bytes: [n; 16] }
}

/// A sender with a name; `open == false` makes every send to it fail.
struct Tx {
    name: u8,
    open: bool,
}

fn kind(e: &ServerEvent) -> &'static str {
    match e {
        ServerEvent::OthersDrop => "drop",
        ServerEvent::OthersJoin => "join",
        ServerEvent::RoomDeleted => "room-deleted",
        _ => "other",
    }
}

/// Makes the sends that the registry decides on, recording each (sender, event kind).
struct Driver {
    log: RefCell<Vec<(u8, &'static str)>>,
}

impl Driver {
    fn new() -> Self {
        Driver { log: RefCell::new(vec![]) }
    }

    fn send_each(&self, m: &WsManager<Tx>, room: &Uid, to: &[Uid], e: &ServerEvent) -> Vec<Uid> {
        let mut failed = vec![];
        for c in to {
            let tx = m.sender(room, c).expect("a recipient is a member");
            self.log.borrow_mut().push((tx.name, kind(e)));
            if !tx.open {
                failed.push(*c);
            }
        }
        failed
    }

    fn broadcast(&self, m: &mut WsManager<Tx>, room: &Uid, e: &ServerEvent) {
        let to = broadcast(m, room);
        for c in self.send_each(m, room, &to, e) {
            self.leave(m, room, &c);
        }
    }

    fn leave(&self, m: &mut WsManager<Tx>, room: &Uid, c: &Uid) {
        let others = leave_room(m, room, c);
        for f in self.send_each(m, room, &others, &ServerEvent::OthersDrop) {
            self.leave(m, room, &f);
        }
    }

    fn sorted_log(&self) -> Vec<(u8, &'static str)> {
        let mut l = self.log.borrow().clone();
        l.sort();
        l
    }
}

#[test]
fn join_and_leave() {
    let mut m: WsManager<Tx> = WsManager::new();
    assert_eq!(m.len(), 0);
    join_room(&mut m, u(1), u(10), Tx { name: 10, open: true });
    join_room(&mut m, u(1), u(11), Tx { name: 11, open: true });
    join_room(&mut m, u(2), u(10), Tx { name: 10, open: true });
    assert_eq!(m.len(), 3);
    assert!(m.is_member(&u(1), &u(10)));
    assert!(m.is_member(&u(2), &u(10)));
    assert!(!m.is_member(&u(2), &u(11)));
    // Joining again replaces the sender without adding a member.
    join_room(&mut m, u(1), u(10), Tx { name: 12, open: true });
    assert_eq!(m.len(), 3);
    assert_eq!(m.sender(&u(1), &u(10)).map(|t| t.name), Some(12));

    let d = Driver::new();
    d.leave(&mut m, &u(1), &u(11));
    assert!(!m.is_member(&u(1), &u(11)));
    assert!(m.is_member(&u(1), &u(10)));
    assert_eq!(m.len(), 2);
    // The remaining client of room 1 (now with sender 12) is told about the departure once.
    assert_eq!(*d.log.borrow(), vec![(12, "drop")]);
}

#[test]
fn broadcast_reaches_only_the_room() {
    let mut m: WsManager<Tx> = WsManager::new();
    join_room(&mut m, u(1), u(10), Tx { name: 10, open: true });
    join_room(&mut m, u(2), u(11), Tx { name: 11, open: true });
    join_room(&mut m, u(1), u(12), Tx { name: 12, open: true });
    let mut to: Vec<[u8; 16]> = broadcast(&m, &u(1)).iter().map(|c| c.bytes).collect();
    to.sort();
    assert_eq!(to, vec![[10; 16], [12; 16]]);
    assert!(broadcast(&m, &u(3)).is_empty());

    let d = Driver::new();
    d.broadcast(&mut m, &u(1), &ServerEvent::OthersJoin);
    assert_eq!(d.sorted_log(), vec![(10, "join"), (12, "join")]);
    assert_eq!(m.len(), 3);
}

#[test]
fn failing_clients_are_dropped_and_announced() {
    let mut m: WsManager<Tx> = WsManager::new();
    join_room(&mut m, u(1), u(10), Tx { name: 10, open: true });
    join_room(&mut m, u(1), u(11), Tx { name: 11, open: false });
    join_room(&mut m, u(2), u(12), Tx { name: 12, open: false });
    let d = Driver::new();
    d.broadcast(&mut m, &u(1), &ServerEvent::RoomDeleted);
    assert!(m.is_member(&u(1), &u(10)));
    assert!(!m.is_member(&u(1), &u(11)));
    // Another room's clients are untouched, even with a closed sender.
    assert!(m.is_member(&u(2), &u(12)));
    assert_eq!(*d.log.borrow(), vec![(10, "room-deleted"), (11, "room-deleted"), (10, "drop")]);
}

#[test]
fn cascading_failures_end() {
    let mut m: WsManager<Tx> = WsManager::new();
    for n in 10..15u8 {
        join_room(&mut m, u(1), u(n), Tx { name: n, open: false });
    }
    let d = Driver::new();
    d.broadcast(&mut m, &u(1), &ServerEvent::OthersJoin);
    assert_eq!(m.len(), 0);
    // Each client got the event once.
    let joins = d.log.borrow().iter().filter(|(_, k)| *k == "join").count();
    assert_eq!(joins, 5);
}

#[test]
fn leaving_an_unknown_room_changes_nothing() {
    let mut m: WsManager<Tx> = WsManager::new();
    join_room(&mut m, u(1), u(10), Tx { name: 10, open: true });
    let others = leave_room(&mut m, &u(3), &u(10));
    assert!(others.is_empty());
    assert_eq!(m.len(), 1);
}

#[test]
fn leaving_names_the_clients_left_each_once() {
    let mut m: WsManager<Tx> = WsManager::new();
    for n in 10..14u8 {
        join_room(&mut m, u(1), u(n), Tx { name: n, open: true });
    }
    join_room(&mut m, u(2), u(20), Tx { name: 20, open: true });
    let mut others: Vec<u8> = leave_room(&mut m, &u(1), &u(11)).iter().map(|c| c.bytes[0]).collect();
    others.sort();
    assert_eq!(others, vec![10, 12, 13]);
    assert!(m.sender(&u(1), &u(11)).is_none());
}
