//! Presence and rooms of the real-time hub: which users have a live
//! connection, which connected users sit in each server's room, and who is in
//! each voice channel. Delivering events is left to the caller: a broadcast
//! here answers *who* receives it.
use vstd::prelude::*;

verus! {

/// The texts of a sequence of strings.
pub open spec fn ids(v: Seq<String>) -> Seq<Seq<char>> {
    v.map_values(|s: String| s@)
}

/// Adds `u` to room `k` of `m`, creating the room when it is missing.
pub open spec fn with_member(
    m: Map<Seq<char>, Set<Seq<char>>>,
    k: Seq<char>,
    u: Seq<char>,
) -> Map<Seq<char>, Set<Seq<char>>> {
    if m.contains_key(k) {
        m.insert(k, m[k].insert(u))
    } else {
        m.insert(k, Set::empty().insert(u))
    }
}

/// Adds `u` to each room named in `ks`, in order.
pub open spec fn with_member_in_all(
    m: Map<Seq<char>, Set<Seq<char>>>,
    ks: Seq<Seq<char>>,
    u: Seq<char>,
) -> Map<Seq<char>, Set<Seq<char>>>
    decreases ks.len(),
{
    if ks.len() == 0 {
        m
    } else {
        with_member(with_member_in_all(m, ks.drop_last(), u), ks.last(), u)
    }
}

/// Removes `u` from every room of `m`; the rooms themselves stay.
pub open spec fn without_member(m: Map<Seq<char>, Set<Seq<char>>>, u: Seq<char>) -> Map<
    Seq<char>,
    Set<Seq<char>>,
> {
    Map::new(|k: Seq<char>| m.contains_key(k), |k: Seq<char>| m[k].remove(u))
}

/// Removes `u` from room `k` of `m` and drops the room once it is empty.
pub open spec fn leaving(m: Map<Seq<char>, Set<Seq<char>>>, k: Seq<char>, u: Seq<char>) -> Map<
    Seq<char>,
    Set<Seq<char>>,
> {
    if m.contains_key(k) {
        if m[k].remove(u).is_empty() {
            m.remove(k)
        } else {
            m.insert(k, m[k].remove(u))
        }
    } else {
        m
    }
}

/// The users that a broadcast to room `k` of `m` reaches: the room's members
/// that are online, except `exclude`.
pub open spec fn audience(
    m: Map<Seq<char>, Set<Seq<char>>>,
    k: Seq<char>,
    online: Set<Seq<char>>,
    exclude: Option<Seq<char>>,
) -> Set<Seq<char>> {
    if m.contains_key(k) {
        m[k].filter(|u: Seq<char>| online.contains(u) && exclude != Some(u))
    } else {
        Set::empty()
    }
}

/// Whether some room of `m` holds both `a` and `b`.
pub open spec fn share_a_room(m: Map<Seq<char>, Set<Seq<char>>>, a: Seq<char>, b: Seq<char>) -> bool {
    exists|k: Seq<char>| #[trigger] m.contains_key(k) && m[k].contains(a) && m[k].contains(b)
}

/// A named room and its members.
struct Room {
    id: String,
    members: Vec<String>,
}

/// Rooms by name, each a set of member ids.
struct RoomTable {
    rooms: Vec<Room>,
}

/// The names of a sequence of rooms.
spec fn room_ids(rooms: Seq<Room>) -> Seq<Seq<char>> {
    rooms.map_values(|r: Room| r.id@)
}

impl Room {
    /// The member ids of this room.
    spec fn member_set(self) -> Set<Seq<char>> {
        ids(self.members@).to_set()
    }

    /// No member is listed twice.
    spec fn wf(self) -> bool {
        ids(self.members@).no_duplicates()
    }
}

/// The map view of a sequence of rooms.
spec fn rooms_view(rooms: Seq<Room>) -> Map<Seq<char>, Set<Seq<char>>> {
    Map::new(
        |k: Seq<char>| room_ids(rooms).contains(k),
        |k: Seq<char>|
            Set::new(
                |u: Seq<char>|
                    exists|i: int|
                        0 <= i < rooms.len() && #[trigger] rooms[i].id@ == k
                            && rooms[i].member_set().contains(u),
            ),
    )
}

/// Room names are distinct and each room is well formed.
spec fn rooms_wf(rooms: Seq<Room>) -> bool {
    &&& room_ids(rooms).no_duplicates()
    &&& forall|i: int| 0 <= i < rooms.len() ==> (#[trigger] rooms[i]).wf()
}

/// Within a sequence of rooms with distinct names, the view at a room's name
/// is that room's members.
proof fn lemma_view_at(rooms: Seq<Room>, i: int)
    requires
        rooms_wf(rooms),
        0 <= i < rooms.len(),
    ensures
        rooms_view(rooms).contains_key(rooms[i].id@),
        rooms_view(rooms)[rooms[i].id@] == rooms[i].member_set(),
{
    let k = rooms[i].id@;
    assert(room_ids(rooms)[i] == k);
    assert(rooms_view(rooms)[k] =~= rooms[i].member_set()) by {
        assert forall|u: Seq<char>| rooms_view(rooms)[k].contains(u) implies rooms[i].member_set().contains(u) by {
            let j = choose|j: int|
                0 <= j < rooms.len() && #[trigger] rooms[j].id@ == k && rooms[j].member_set().contains(u);
            assert(room_ids(rooms)[j] == room_ids(rooms)[i]);
        }
    }
}

/// The room names of a view are exactly those listed.
proof fn lemma_view_dom(rooms: Seq<Room>, k: Seq<char>)
    ensures
        rooms_view(rooms).contains_key(k) <==> exists|i: int| 0 <= i < rooms.len() && #[trigger] rooms[i].id@ == k,
{
    if room_ids(rooms).contains(k) {
        let i = choose|i: int| 0 <= i < room_ids(rooms).len() && room_ids(rooms)[i] == k;
        assert(rooms[i].id@ == k);
    }
    if exists|i: int| 0 <= i < rooms.len() && #[trigger] rooms[i].id@ == k {
        let i = choose|i: int| 0 <= i < rooms.len() && #[trigger] rooms[i].id@ == k;
        assert(room_ids(rooms)[i] == k);
    }
}

/// Two well-formed room sequences with the same names, where each room of
/// `b` holds the members of the matching room of `a` except `u`, have views
/// that differ by removing `u` from every room.
proof fn lemma_views_without(a: Seq<Room>, b: Seq<Room>, u: Seq<char>)
    requires
        rooms_wf(a),
        rooms_wf(b),
        a.len() == b.len(),
        forall|i: int| 0 <= i < a.len() ==> a[i].id@ == b[i].id@,
        forall|i: int| 0 <= i < a.len() ==> b[i].member_set() == a[i].member_set().remove(u),
    ensures
        rooms_view(b) == without_member(rooms_view(a), u),
{
    assert forall|k: Seq<char>| rooms_view(a).contains_key(k) <==> rooms_view(b).contains_key(k) by {
        lemma_view_dom(a, k);
        lemma_view_dom(b, k);
        if exists|i: int| 0 <= i < a.len() && #[trigger] a[i].id@ == k {
            let i = choose|i: int| 0 <= i < a.len() && #[trigger] a[i].id@ == k;
            assert(b[i].id@ == k);
        }
        if exists|i: int| 0 <= i < b.len() && #[trigger] b[i].id@ == k {
            let i = choose|i: int| 0 <= i < b.len() && #[trigger] b[i].id@ == k;
            assert(a[i].id@ == k);
        }
    }
    assert forall|k: Seq<char>| #[trigger] rooms_view(b).contains_key(k) implies rooms_view(b)[k]
        == without_member(rooms_view(a), u)[k] by {
        lemma_view_dom(a, k);
        let i = choose|i: int| 0 <= i < a.len() && #[trigger] a[i].id@ == k;
        lemma_view_at(a, i);
        lemma_view_at(b, i);
    }
    assert(rooms_view(b) =~= without_member(rooms_view(a), u));
}

/// Replacing one room by a room of the same name changes only that entry.
proof fn lemma_view_update(rooms: Seq<Room>, i: int, r: Room)
    requires
        rooms_wf(rooms),
        0 <= i < rooms.len(),
        r.id@ == rooms[i].id@,
        r.wf(),
    ensures
        rooms_wf(rooms.update(i, r)),
        rooms_view(rooms.update(i, r)) == rooms_view(rooms).insert(r.id@, r.member_set()),
{
    let new = rooms.update(i, r);
    assert(room_ids(new) =~= room_ids(rooms));
    assert forall|j: int| 0 <= j < new.len() implies (#[trigger] new[j]).wf() by {
        if j != i {
            assert(new[j] == rooms[j]);
        }
    }
    let k = r.id@;
    assert forall|kk: Seq<char>| #[trigger] rooms_view(new).contains_key(kk) <==> rooms_view(
        rooms,
    ).insert(k, r.member_set()).contains_key(kk) by {
        lemma_view_dom(new, kk);
        lemma_view_dom(rooms, kk);
        if exists|j: int| 0 <= j < new.len() && #[trigger] new[j].id@ == kk {
            let j = choose|j: int| 0 <= j < new.len() && #[trigger] new[j].id@ == kk;
            assert(rooms[j].id@ == kk);
        }
        if exists|j: int| 0 <= j < rooms.len() && #[trigger] rooms[j].id@ == kk {
            let j = choose|j: int| 0 <= j < rooms.len() && #[trigger] rooms[j].id@ == kk;
            assert(new[j].id@ == kk);
        }
        lemma_view_at(rooms, i);
    }
    assert forall|kk: Seq<char>| #[trigger] rooms_view(new).contains_key(kk) implies rooms_view(
        new,
    )[kk] == rooms_view(rooms).insert(k, r.member_set())[kk] by {
        lemma_view_dom(new, kk);
        let j = choose|j: int| 0 <= j < new.len() && #[trigger] new[j].id@ == kk;
        lemma_view_at(new, j);
        if j != i {
            assert(new[j] == rooms[j]);
            lemma_view_at(rooms, j);
            assert(room_ids(rooms)[j] != room_ids(rooms)[i]);
        }
    }
    assert(rooms_view(new) =~= rooms_view(rooms).insert(k, r.member_set()));
}

/// Appending a room under a new name adds one entry.
proof fn lemma_view_push(rooms: Seq<Room>, r: Room)
    requires
        rooms_wf(rooms),
        !room_ids(rooms).contains(r.id@),
        r.wf(),
    ensures
        rooms_wf(rooms.push(r)),
        rooms_view(rooms.push(r)) == rooms_view(rooms).insert(r.id@, r.member_set()),
{
    let new = rooms.push(r);
    assert(room_ids(new) =~= room_ids(rooms).push(r.id@));
    assert forall|j: int| 0 <= j < new.len() implies (#[trigger] new[j]).wf() by {
        if j < rooms.len() {
            assert(new[j] == rooms[j]);
        }
    }
    let k = r.id@;
    assert forall|kk: Seq<char>| #[trigger] rooms_view(new).contains_key(kk) <==> rooms_view(
        rooms,
    ).insert(k, r.member_set()).contains_key(kk) by {
        lemma_view_dom(new, kk);
        lemma_view_dom(rooms, kk);
        if exists|j: int| 0 <= j < new.len() && #[trigger] new[j].id@ == kk {
            let j = choose|j: int| 0 <= j < new.len() && #[trigger] new[j].id@ == kk;
            if j < rooms.len() {
                assert(rooms[j].id@ == kk);
            }
        }
        if exists|j: int| 0 <= j < rooms.len() && #[trigger] rooms[j].id@ == kk {
            let j = choose|j: int| 0 <= j < rooms.len() && #[trigger] rooms[j].id@ == kk;
            assert(new[j].id@ == kk);
        }
        assert(new[rooms.len() as int].id@ == k);
    }
    assert forall|kk: Seq<char>| #[trigger] rooms_view(new).contains_key(kk) implies rooms_view(
        new,
    )[kk] == rooms_view(rooms).insert(k, r.member_set())[kk] by {
        lemma_view_dom(new, kk);
        let j = choose|j: int| 0 <= j < new.len() && #[trigger] new[j].id@ == kk;
        lemma_view_at(new, j);
        if j < rooms.len() {
            assert(new[j] == rooms[j]);
            lemma_view_at(rooms, j);
            assert(room_ids(rooms)[j] == kk);
        }
    }
    assert(rooms_view(new) =~= rooms_view(rooms).insert(k, r.member_set()));
}

/// Removing one room removes its entry.
proof fn lemma_view_remove(rooms: Seq<Room>, i: int)
    requires
        rooms_wf(rooms),
        0 <= i < rooms.len(),
    ensures
        rooms_wf(rooms.remove(i)),
        rooms_view(rooms.remove(i)) == rooms_view(rooms).remove(rooms[i].id@),
{
    let new = rooms.remove(i);
    let k = rooms[i].id@;
    assert(room_ids(new) =~= room_ids(rooms).remove(i));
    assert forall|a: int, b: int| 0 <= a < b < new.len() implies room_ids(new)[a] != room_ids(new)[b] by {
        let aa = if a < i { a } else { a + 1 };
        let bb = if b < i { b } else { b + 1 };
        assert(room_ids(new)[a] == room_ids(rooms)[aa]);
        assert(room_ids(new)[b] == room_ids(rooms)[bb]);
    }
    assert forall|j: int| 0 <= j < new.len() implies (#[trigger] new[j]).wf() by {
        if j < i {
            assert(new[j] == rooms[j]);
        } else {
            assert(new[j] == rooms[j + 1]);
        }
    }
    assert forall|kk: Seq<char>| #[trigger] rooms_view(new).contains_key(kk) <==> rooms_view(
        rooms,
    ).remove(k).contains_key(kk) by {
        lemma_view_dom(new, kk);
        lemma_view_dom(rooms, kk);
        if exists|j: int| 0 <= j < new.len() && #[trigger] new[j].id@ == kk {
            let j = choose|j: int| 0 <= j < new.len() && #[trigger] new[j].id@ == kk;
            let jj = if j < i { j } else { j + 1 };
            assert(rooms[jj].id@ == kk);
            assert(room_ids(rooms)[jj] == kk);
            assert(room_ids(rooms)[i] == k);
        }
        if kk != k && exists|j: int| 0 <= j < rooms.len() && #[trigger] rooms[j].id@ == kk {
            let j = choose|j: int| 0 <= j < rooms.len() && #[trigger] rooms[j].id@ == kk;
            if j < i {
                assert(new[j].id@ == kk);
            } else {
                assert(new[j - 1].id@ == kk);
            }
        }
    }
    assert forall|kk: Seq<char>| #[trigger] rooms_view(new).contains_key(kk) implies rooms_view(
        new,
    )[kk] == rooms_view(rooms).remove(k)[kk] by {
        lemma_view_dom(new, kk);
        let j = choose|j: int| 0 <= j < new.len() && #[trigger] new[j].id@ == kk;
        lemma_view_at(new, j);
        let jj = if j < i { j } else { j + 1 };
        assert(new[j] == rooms[jj]);
        lemma_view_at(rooms, jj);
    }
    assert(rooms_view(new) =~= rooms_view(rooms).remove(k));
}

/// The position of `x` in `v`, if it is there.
fn position_of(v: &Vec<String>, x: &String) -> (res: Option<usize>)
    ensures
        match res {
            Some(j) => j < v@.len() && v@[j as int]@ == x@,
            None => !ids(v@).contains(x@),
        },
{
    let mut j: usize = 0;
    while j < v.len()
        invariant
            j <= v@.len(),
            forall|jj: int| 0 <= jj < j ==> v@[jj]@ != x@,
        decreases v@.len() - j,
    {
        if v[j] == *x {
            return Some(j);
        }
        j += 1;
    }
    assert forall|jj: int| 0 <= jj < ids(v@).len() implies ids(v@)[jj] != x@ by {
        assert(ids(v@)[jj] == v@[jj]@);
    }
    None
}

/// Removing the entry at `j` of a list without duplicates removes that value
/// from its set and keeps it free of duplicates.
proof fn lemma_remove_member(v: Seq<String>, j: int)
    requires
        ids(v).no_duplicates(),
        0 <= j < v.len(),
    ensures
        ids(v.remove(j)).no_duplicates(),
        ids(v.remove(j)).to_set() == ids(v).to_set().remove(v[j]@),
{
    let w = v.remove(j);
    assert(ids(w) =~= ids(v).remove(j));
    assert forall|a: int, b: int| 0 <= a < b < w.len() implies ids(w)[a] != ids(w)[b] by {
        let aa = if a < j { a } else { a + 1 };
        let bb = if b < j { b } else { b + 1 };
        assert(ids(w)[a] == ids(v)[aa]);
        assert(ids(w)[b] == ids(v)[bb]);
    }
    assert forall|u: Seq<char>| #[trigger] ids(w).to_set().contains(u) <==> ids(v).to_set().remove(
        v[j]@,
    ).contains(u) by {
        if ids(w).contains(u) {
            let a = choose|a: int| 0 <= a < ids(w).len() && ids(w)[a] == u;
            let aa = if a < j { a } else { a + 1 };
            assert(ids(v)[aa] == u);
            assert(ids(v)[j] == v[j]@);
        }
        if ids(v).contains(u) && u != v[j]@ {
            let a = choose|a: int| 0 <= a < ids(v).len() && ids(v)[a] == u;
            if a < j {
                assert(ids(w)[a] == u);
            } else {
                assert(a != j);
                assert(ids(w)[a - 1] == u);
            }
        }
    }
    assert(ids(w).to_set() =~= ids(v).to_set().remove(v[j]@));
}

/// Appending a value that is not yet listed adds it to the set and keeps the
/// list free of duplicates.
proof fn lemma_push_member(v: Seq<String>, x: String)
    requires
        ids(v).no_duplicates(),
        !ids(v).contains(x@),
    ensures
        ids(v.push(x)).no_duplicates(),
        ids(v.push(x)).to_set() == ids(v).to_set().insert(x@),
{
    let w = v.push(x);
    assert(ids(w) =~= ids(v).push(x@));
    assert forall|a: int, b: int| 0 <= a < b < w.len() implies ids(w)[a] != ids(w)[b] by {
        if b == v.len() {
            assert(ids(v)[a] == ids(w)[a]);
        }
    }
    assert forall|u: Seq<char>| #[trigger] ids(w).to_set().contains(u) <==> ids(v).to_set().insert(
        x@,
    ).contains(u) by {
        if ids(w).contains(u) {
            let a = choose|a: int| 0 <= a < ids(w).len() && ids(w)[a] == u;
            if a < v.len() {
                assert(ids(v)[a] == u);
            }
        }
        if ids(v).contains(u) {
            let a = choose|a: int| 0 <= a < ids(v).len() && ids(v)[a] == u;
            assert(ids(w)[a] == u);
        }
        assert(ids(w)[v.len() as int] == x@);
    }
    assert(ids(w).to_set() =~= ids(v).to_set().insert(x@));
}

impl RoomTable {
    /// The rooms, by name.
    spec fn view(self) -> Map<Seq<char>, Set<Seq<char>>> {
        rooms_view(self.rooms@)
    }

    /// Room names are distinct and no room lists a member twice.
    spec fn wf(self) -> bool {
        rooms_wf(self.rooms@)
    }

    /// A table without rooms.
    fn new() -> (res: Self)
        ensures
            res.wf(),
            res@ == Map::<Seq<char>, Set<Seq<char>>>::empty(),
    {
        let res = RoomTable { rooms: Vec::new() };
        assert(res@ =~= Map::<Seq<char>, Set<Seq<char>>>::empty());
        res
    }

    /// The position of the room named `id`, if there is one.
    fn find(&self, id: &String) -> (res: Option<usize>)
        requires
            self.wf(),
        ensures
            match res {
                Some(i) => i < self.rooms@.len() && self.rooms@[i as int].id@ == id@,
                None => !self@.contains_key(id@),
            },
    {
        let mut i: usize = 0;
        while i < self.rooms.len()
            invariant
                i <= self.rooms@.len(),
                forall|j: int| 0 <= j < i ==> self.rooms@[j].id@ != id@,
            decreases self.rooms@.len() - i,
        {
            if self.rooms[i].id == *id {
                return Some(i);
            }
            i += 1;
        }
        proof {
            lemma_view_dom(self.rooms@, id@);
        }
        None
    }

    /// Adds `user_id` to the room `room_id`, creating the room if needed.
    fn add(&mut self, room_id: &str, user_id: &str)
        requires
            old(self).wf(),
        ensures
            final(self).wf(),
            final(self)@ == with_member(old(self)@, room_id@, user_id@),
    {
        let k = room_id.to_owned();
        let u = user_id.to_owned();
        match self.find(&k) {
            Some(i) => {
                let ghost old_rooms = self.rooms@;
                proof {
                    lemma_view_at(old_rooms, i as int);
                }
                let mut room = self.rooms.remove(i);
                proof {
                    assert(room == old_rooms[i as int]);
                }
                match position_of(&room.members, &u) {
                    Some(j) => {
                        proof {
                            assert(ids(room.members@)[j as int] == u@);
                            assert(ids(room.members@).contains(u@));
                            assert(room.member_set() =~= room.member_set().insert(u@));
                        }
                    },
                    None => {
                        proof {
                            lemma_push_member(room.members@, u);
                        }
                        room.members.push(u);
                    },
                }
                let ghost r = room;
                self.rooms.insert(i, room);
                proof {
                    assert(self.rooms@ =~= old_rooms.update(i as int, r));
                    lemma_view_update(old_rooms, i as int, r);
                }
            },
            None => {
                let mut members: Vec<String> = Vec::new();
                members.push(u);
                let room = Room { id: k, members };
                proof {
                    assert(ids(room.members@) =~= seq![user_id@]);
                    assert forall|x: Seq<char>| #[trigger] room.member_set().contains(x) <==> x
                        == user_id@ by {
                        if x == user_id@ {
                            assert(ids(room.members@)[0] == x);
                        }
                    }
                    assert(room.member_set() =~= Set::empty().insert(user_id@));
                    lemma_view_dom(self.rooms@, k@);
                    lemma_view_push(self.rooms@, room);
                }
                self.rooms.push(room);
            },
        }
    }

    /// Removes `user_id` from every room; rooms left empty stay.
    fn remove_everywhere(&mut self, user_id: &str)
        requires
            old(self).wf(),
        ensures
            final(self).wf(),
            final(self)@ == without_member(old(self)@, user_id@),
    {
        let u = user_id.to_owned();
        let ghost old_rooms = self.rooms@;
        let mut i: usize = 0;
        while i < self.rooms.len()
            invariant
                rooms_wf(self.rooms@),
                self.rooms@.len() == old_rooms.len(),
                i <= self.rooms@.len(),
                u@ == user_id@,
                forall|j: int| 0 <= j < old_rooms.len() ==> self.rooms@[j].id@ == old_rooms[j].id@,
                forall|j: int|
                    0 <= j < i ==> self.rooms@[j].member_set() == old_rooms[j].member_set().remove(
                        u@,
                    ),
                forall|j: int| i <= j < old_rooms.len() ==> self.rooms@[j] == old_rooms[j],
            decreases old_rooms.len() - i,
        {
            let ghost cur = self.rooms@;
            let mut room = self.rooms.remove(i);
            proof {
                assert(room == cur[i as int]);
                assert(room.wf());
            }
            match position_of(&room.members, &u) {
                Some(j) => {
                    proof {
                        lemma_remove_member(room.members@, j as int);
                    }
                    room.members.remove(j);
                },
                None => {
                    proof {
                        assert(room.member_set() =~= room.member_set().remove(u@));
                    }
                },
            }
            let ghost r = room;
            self.rooms.insert(i, room);
            proof {
                assert(self.rooms@ =~= cur.update(i as int, r));
                lemma_view_update(cur, i as int, r);
            }
            i += 1;
        }
        proof {
            lemma_views_without(old_rooms, self.rooms@, u@);
        }
    }

    /// Removes `user_id` from the room `room_id` and drops the room once it
    /// has no member left.
    fn leave(&mut self, room_id: &str, user_id: &str)
        requires
            old(self).wf(),
        ensures
            final(self).wf(),
            final(self)@ == leaving(old(self)@, room_id@, user_id@),
    {
        let k = room_id.to_owned();
        let u = user_id.to_owned();
        if let Some(i) = self.find(&k) {
            let ghost old_rooms = self.rooms@;
            proof {
                lemma_view_at(old_rooms, i as int);
            }
            let mut room = self.rooms.remove(i);
            proof {
                assert(room == old_rooms[i as int]);
            }
            match position_of(&room.members, &u) {
                Some(j) => {
                    proof {
                        lemma_remove_member(room.members@, j as int);
                    }
                    room.members.remove(j);
                },
                None => {
                    proof {
                        assert(room.member_set() =~= room.member_set().remove(u@));
                    }
                },
            }
            if room.members.len() == 0 {
                proof {
                    assert(room.member_set() =~= Set::empty());
                    lemma_view_remove(old_rooms, i as int);
                }
            } else {
                proof {
                    assert(ids(room.members@)[0] == room.members@[0]@);
                    assert(room.member_set().contains(room.members@[0]@));
                }
                let ghost r = room;
                self.rooms.insert(i, room);
                proof {
                    assert(self.rooms@ =~= old_rooms.update(i as int, r));
                    lemma_view_update(old_rooms, i as int, r);
                }
            }
        }
    }

    /// The members of the room `room_id`, without repetition.
    fn members(&self, room_id: &str) -> (res: Option<&Vec<String>>)
        requires
            self.wf(),
        ensures
            match res {
                Some(v) => self@.contains_key(room_id@) && ids(v@).to_set() == self@[room_id@]
                    && ids(v@).no_duplicates(),
                None => !self@.contains_key(room_id@),
            },
    {
        let k = room_id.to_owned();
        match self.find(&k) {
            Some(i) => {
                proof {
                    lemma_view_at(self.rooms@, i as int);
                }
                Some(&self.rooms[i].members)
            },
            None => None,
        }
    }

    /// Whether some room holds both `a` and `b`.
    fn some_room_holds_both(&self, a: &str, b: &str) -> (res: bool)
        requires
            self.wf(),
        ensures
            res == share_a_room(self@, a@, b@),
    {
        let ua = a.to_owned();
        let ub = b.to_owned();
        let mut i: usize = 0;
        while i < self.rooms.len()
            invariant
                self.wf(),
                i <= self.rooms@.len(),
                ua@ == a@,
                ub@ == b@,
                forall|j: int|
                    0 <= j < i ==> !(self.rooms@[j].member_set().contains(a@)
                        && self.rooms@[j].member_set().contains(b@)),
            decreases self.rooms@.len() - i,
        {
            let in_a = position_of(&self.rooms[i].members, &ua);
            let in_b = position_of(&self.rooms[i].members, &ub);
            if in_a.is_some() && in_b.is_some() {
                proof {
                    let ja = in_a->0 as int;
                    let jb = in_b->0 as int;
                    let m = self.rooms@[i as int].members@;
                    assert(ids(m)[ja] == a@);
                    assert(ids(m)[jb] == b@);
                    assert(ids(m).contains(a@));
                    assert(ids(m).contains(b@));
                    lemma_view_at(self.rooms@, i as int);
                    assert(self@.contains_key(self.rooms@[i as int].id@));
                }
                return true;
            }
            i += 1;
        }
        proof {
            assert forall|k: Seq<char>| #[trigger] self@.contains_key(k) implies !(self@[k].contains(a@)
                && self@[k].contains(b@)) by {
                lemma_view_dom(self.rooms@, k);
                let j = choose|j: int| 0 <= j < self.rooms@.len() && #[trigger] self.rooms@[j].id@ == k;
                lemma_view_at(self.rooms@, j);
            }
        }
        false
    }
}


/// The connection hub: who is online, the members of each server room, and
/// who sits in each voice channel.
pub struct Hub {
    clients: Vec<String>,
    server_rooms: RoomTable,
    voice_rooms: RoomTable,
}

impl Hub {
    /// The users with a live connection.
    pub closed spec fn online(self) -> Set<Seq<char>> {
        ids(self.clients@).to_set()
    }

    /// The connected members of each server, by server id.
    pub closed spec fn server_rooms(self) -> Map<Seq<char>, Set<Seq<char>>> {
        self.server_rooms@
    }

    /// The users in each voice channel, by channel id.
    pub closed spec fn voice_rooms(self) -> Map<Seq<char>, Set<Seq<char>>> {
        self.voice_rooms@
    }

    /// Nothing is listed twice. Every hub satisfies this.
    #[verifier::type_invariant]
    pub closed spec fn wf(self) -> bool {
        &&& ids(self.clients@).no_duplicates()
        &&& self.server_rooms.wf()
        &&& self.voice_rooms.wf()
    }

    /// An empty hub: nobody online, no rooms.
    pub fn new() -> (res: Self)
        ensures
            res.online() == Set::<Seq<char>>::empty(),
            res.server_rooms() == Map::<Seq<char>, Set<Seq<char>>>::empty(),
            res.voice_rooms() == Map::<Seq<char>, Set<Seq<char>>>::empty(),
    {
        let res = Hub { clients: Vec::new(), server_rooms: RoomTable::new(), voice_rooms: RoomTable::new() };
        assert(res.online() =~= Set::<Seq<char>>::empty());
        res
    }

    /// Records that `user_id` has a live connection.
    pub fn register(&mut self, user_id: &str)
        ensures
            final(self).online() == old(self).online().insert(user_id@),
            final(self).server_rooms() == old(self).server_rooms(),
            final(self).voice_rooms() == old(self).voice_rooms(),
    {
        proof {
            use_type_invariant(&*self);
        }
        let u = user_id.to_owned();
        match position_of(&self.clients, &u) {
            Some(j) => {
                proof {
                    assert(ids(self.clients@)[j as int] == u@);
                    assert(ids(self.clients@).contains(u@));
                    assert(self.online() =~= self.online().insert(user_id@));
                }
            },
            None => {
                let mut clients: Vec<String> = Vec::new();
                std::mem::swap(&mut clients, &mut self.clients);
                proof {
                    lemma_push_member(clients@, u);
                }
                clients.push(u);
                self.clients = clients;
            },
        }
    }

    /// Forgets `user_id`: it is no longer online and leaves every server room
    /// and voice channel (rooms left empty stay).
    pub fn unregister(&mut self, user_id: &str)
        ensures
            final(self).online() == old(self).online().remove(user_id@),
            final(self).server_rooms() == without_member(old(self).server_rooms(), user_id@),
            final(self).voice_rooms() == without_member(old(self).voice_rooms(), user_id@),
    {
        proof {
            use_type_invariant(&*self);
        }
        let u = user_id.to_owned();
        match position_of(&self.clients, &u) {
            Some(j) => {
                let mut clients: Vec<String> = Vec::new();
                std::mem::swap(&mut clients, &mut self.clients);
                proof {
                    lemma_remove_member(clients@, j as int);
                }
                clients.remove(j);
                self.clients = clients;
            },
            None => {
                proof {
                    assert(self.online() =~= self.online().remove(user_id@));
                }
            },
        }
        let mut server_rooms = RoomTable::new();
        std::mem::swap(&mut server_rooms, &mut self.server_rooms);
        server_rooms.remove_everywhere(user_id);
        self.server_rooms = server_rooms;
        let mut voice_rooms = RoomTable::new();
        std::mem::swap(&mut voice_rooms, &mut self.voice_rooms);
        voice_rooms.remove_everywhere(user_id);
        self.voice_rooms = voice_rooms;
    }

    /// Puts `user_id` in the room of each server of `server_ids`.
    pub fn join_server_rooms(&mut self, user_id: &str, server_ids: &[String])
        ensures
            final(self).online() == old(self).online(),
            final(self).server_rooms() == with_member_in_all(
                old(self).server_rooms(),
                ids(server_ids@),
                user_id@,
            ),
            final(self).voice_rooms() == old(self).voice_rooms(),
    {
        proof {
            use_type_invariant(&*self);
        }
        let ghost start = self.server_rooms@;
        let mut rooms = RoomTable::new();
        std::mem::swap(&mut rooms, &mut self.server_rooms);
        let mut i: usize = 0;
        while i < server_ids.len()
            invariant
                rooms.wf(),
                i <= server_ids@.len(),
                rooms@ == with_member_in_all(
                    start,
                    ids(server_ids@.subrange(0, i as int)),
                    user_id@,
                ),
            decreases server_ids@.len() - i,
        {
            proof {
                assert(ids(server_ids@.subrange(0, i + 1)).drop_last() =~= ids(
                    server_ids@.subrange(0, i as int),
                ));
                assert(ids(server_ids@.subrange(0, i + 1)).last() == server_ids@[i as int]@);
            }
            rooms.add(server_ids[i].as_str(), user_id);
            i += 1;
        }
        proof {
            assert(server_ids@.subrange(0, i as int) =~= server_ids@);
        }
        self.server_rooms = rooms;
    }

    /// Whether `user_id` has a live connection.
    pub fn is_online(&self, user_id: &str) -> (res: bool)
        ensures
            res == self.online().contains(user_id@),
    {
        proof {
            use_type_invariant(self);
        }
        let u = user_id.to_owned();
        match position_of(&self.clients, &u) {
            Some(j) => {
                proof {
                    assert(ids(self.clients@)[j as int] == u@);
                    assert(ids(self.clients@).contains(u@));
                }
                true
            },
            None => false,
        }
    }

    /// The users that an event for `user_id` alone is delivered to: that
    /// user when online, nobody otherwise.
    pub fn send_to_user(&self, user_id: &str) -> (res: Vec<String>)
        ensures
            ids(res@) == (if self.online().contains(user_id@) {
                seq![user_id@]
            } else {
                Seq::<Seq<char>>::empty()
            }),
    {
        let mut res: Vec<String> = Vec::new();
        if self.is_online(user_id) {
            res.push(user_id.to_owned());
            assert(ids(res@) =~= seq![user_id@]);
        } else {
            assert(ids(res@) =~= Seq::<Seq<char>>::empty());
        }
        res
    }

    /// The online members of `members`, except `exclude`.
    fn online_audience(&self, members: &Vec<String>, exclude: Option<&str>) -> (res: Vec<String>)
        requires
            self.wf(),
            ids(members@).no_duplicates(),
        ensures
            ids(res@).no_duplicates(),
            ids(res@).to_set() == ids(members@).to_set().filter(
                |u: Seq<char>|
                    self.online().contains(u) && match exclude {
                        Some(e) => Some(e@),
                        None => None,
                    } != Some(u),
            ),
    {
        let ghost ex: Option<Seq<char>> = match exclude {
            Some(e) => Some(e@),
            None => None,
        };
        let ghost keep = |u: Seq<char>| self.online().contains(u) && ex != Some(u);
        let mut res: Vec<String> = Vec::new();
        let mut i: usize = 0;
        while i < members.len()
            invariant
                self.wf(),
                ids(members@).no_duplicates(),
                i <= members@.len(),
                ex == match exclude {
                    Some(e) => Some(e@),
                    None => None,
                },
                keep == (|u: Seq<char>| self.online().contains(u) && ex != Some(u)),
                ids(res@).no_duplicates(),
                ids(res@).to_set() == ids(members@.subrange(0, i as int)).to_set().filter(keep),
            decreases members@.len() - i,
        {
            let m = &members[i];
            let excluded = match exclude {
                Some(e) => {
                    let eo = e.to_owned();
                    *m == eo
                },
                None => false,
            };
            let online = self.is_online(m.as_str());
            let ghost before = members@.subrange(0, i as int);
            let ghost after = members@.subrange(0, i + 1);
            proof {
                assert(ids(after) =~= ids(before).push(m@));
                ids(before).lemma_push_to_set_commute(m@);
                assert(excluded == (ex == Some(m@)));
            }
            if online && !excluded {
                proof {
                    assert(!ids(res@).contains(m@)) by {
                        if ids(res@).contains(m@) {
                            assert(ids(res@).to_set().contains(m@));
                            assert(ids(before).to_set().contains(m@));
                            let a = choose|a: int| 0 <= a < ids(before).len() && ids(before)[a] == m@;
                            assert(ids(members@)[a] == ids(members@)[i as int]);
                        }
                    }
                    lemma_push_member(res@, *m);
                }
                res.push(m.clone());
                proof {
                    assert(ids(res@).to_set() =~= ids(after).to_set().filter(keep));
                }
            } else {
                proof {
                    assert(ids(res@).to_set() =~= ids(after).to_set().filter(keep));
                }
            }
            i += 1;
        }
        proof {
            assert(members@.subrange(0, i as int) =~= members@);
        }
        res
    }

    /// The users that an event for server `server_id` is delivered to: its
    /// connected members that are online, except `exclude_user`.
    pub fn broadcast_to_server(&self, server_id: &str, exclude_user: Option<&str>) -> (res: Vec<
        String,
    >)
        ensures
            ids(res@).no_duplicates(),
            ids(res@).to_set() == audience(
                self.server_rooms(),
                server_id@,
                self.online(),
                match exclude_user {
                    Some(e) => Some(e@),
                    None => None,
                },
            ),
    {
        proof {
            use_type_invariant(self);
        }
        match self.server_rooms.members(server_id) {
            Some(members) => self.online_audience(members, exclude_user),
            None => {
                let res: Vec<String> = Vec::new();
                proof {
                    assert(ids(res@).to_set() =~= Set::empty());
                }
                res
            },
        }
    }

    /// The users that an event for voice channel `channel_id` is delivered
    /// to: the users in that channel that are online, except `exclude_user`.
    pub fn broadcast_to_voice_channel(&self, channel_id: &str, exclude_user: Option<&str>) -> (res:
        Vec<String>)
        ensures
            ids(res@).no_duplicates(),
            ids(res@).to_set() == audience(
                self.voice_rooms(),
                channel_id@,
                self.online(),
                match exclude_user {
                    Some(e) => Some(e@),
                    None => None,
                },
            ),
    {
        proof {
            use_type_invariant(self);
        }
        match self.voice_rooms.members(channel_id) {
            Some(members) => self.online_audience(members, exclude_user),
            None => {
                let res: Vec<String> = Vec::new();
                proof {
                    assert(ids(res@).to_set() =~= Set::empty());
                }
                res
            },
        }
    }

    /// Puts `user_id` in voice channel `channel_id`.
    pub fn join_voice(&mut self, channel_id: &str, user_id: &str)
        ensures
            final(self).online() == old(self).online(),
            final(self).server_rooms() == old(self).server_rooms(),
            final(self).voice_rooms() == with_member(old(self).voice_rooms(), channel_id@, user_id@),
    {
        proof {
            use_type_invariant(&*self);
        }
        let mut rooms = RoomTable::new();
        std::mem::swap(&mut rooms, &mut self.voice_rooms);
        rooms.add(channel_id, user_id);
        self.voice_rooms = rooms;
    }

    /// Takes `user_id` out of voice channel `channel_id`; the channel's entry
    /// goes away once nobody is left in it.
    pub fn leave_voice(&mut self, channel_id: &str, user_id: &str)
        ensures
            final(self).online() == old(self).online(),
            final(self).server_rooms() == old(self).server_rooms(),
            final(self).voice_rooms() == leaving(old(self).voice_rooms(), channel_id@, user_id@),
            // every other member stays in the channel
            forall|v: Seq<char>|
                old(self).voice_rooms().contains_key(channel_id@)
                    && #[trigger] old(self).voice_rooms()[channel_id@].contains(v) && v != user_id@
                    ==> final(self).voice_rooms().contains_key(channel_id@)
                    && final(self).voice_rooms()[channel_id@].contains(v),
            // the leaving user is no longer in it
            final(self).voice_rooms().contains_key(channel_id@)
                ==> !final(self).voice_rooms()[channel_id@].contains(user_id@),
    {
        proof {
            use_type_invariant(&*self);
            let before = old(self).voice_rooms();
            let after = leaving(before, channel_id@, user_id@);
            assert forall|v: Seq<char>|
                before.contains_key(channel_id@) && #[trigger] before[channel_id@].contains(v)
                    && v != user_id@ implies after.contains_key(channel_id@)
                && after[channel_id@].contains(v) by {
                law_leaving_removes_only_the_leaver(before, channel_id@, user_id@, v);
            }
        }
        let mut rooms = RoomTable::new();
        std::mem::swap(&mut rooms, &mut self.voice_rooms);
        rooms.leave(channel_id, user_id);
        self.voice_rooms = rooms;
    }

    /// Whether `user_a` and `user_b` sit in the same voice channel.
    pub fn share_voice_channel(&self, user_a: &str, user_b: &str) -> (res: bool)
        ensures
            res == share_a_room(self.voice_rooms(), user_a@, user_b@),
    {
        proof {
            use_type_invariant(self);
        }
        self.voice_rooms.some_room_holds_both(user_a, user_b)
    }
}


/// A broadcast reaches only online members of the room, never the excluded
/// user.
pub proof fn law_audience_is_online_members(
    m: Map<Seq<char>, Set<Seq<char>>>,
    k: Seq<char>,
    online: Set<Seq<char>>,
    exclude: Option<Seq<char>>,
    u: Seq<char>,
)
    requires
        audience(m, k, online, exclude).contains(u),
    ensures
        m.contains_key(k),
        m[k].contains(u),
        online.contains(u),
        exclude != Some(u),
{
}

/// Once a user is unregistered, it sits in no room and no broadcast reaches
/// it.
pub proof fn law_unregistered_user_is_gone(
    m: Map<Seq<char>, Set<Seq<char>>>,
    online: Set<Seq<char>>,
    u: Seq<char>,
    k: Seq<char>,
    exclude: Option<Seq<char>>,
)
    ensures
        without_member(m, u).contains_key(k) ==> !without_member(m, u)[k].contains(u),
        !audience(without_member(m, u), k, online.remove(u), exclude).contains(u),
{
}

/// Two users who joined the same voice channel share a voice channel.
pub proof fn law_joined_users_share_a_room(
    m: Map<Seq<char>, Set<Seq<char>>>,
    k: Seq<char>,
    a: Seq<char>,
    b: Seq<char>,
)
    ensures
        share_a_room(with_member(with_member(m, k, a), k, b), a, b),
{
    let m2 = with_member(with_member(m, k, a), k, b);
    assert(m2.contains_key(k) && m2[k].contains(a) && m2[k].contains(b));
}

/// Leaving a voice channel takes the user out of it, and the channel's
/// entry stays only while someone is left in it.
pub proof fn law_leaving_prunes_empty_rooms(
    m: Map<Seq<char>, Set<Seq<char>>>,
    k: Seq<char>,
    u: Seq<char>,
)
    ensures
        leaving(m, k, u).contains_key(k) ==> !leaving(m, k, u)[k].contains(u) && !leaving(
            m,
            k,
            u,
        )[k].is_empty(),
        forall|k2: Seq<char>|
            k2 != k ==> (#[trigger] leaving(m, k, u).contains_key(k2) == m.contains_key(k2)
                && (m.contains_key(k2) ==> leaving(m, k, u)[k2] == m[k2])),
{
}

/// Leaving a voice channel takes out the leaving user alone: every other
/// member stays in the channel, no one joins it, and leaving a channel one is
/// not in (while others are in it) changes nothing.
pub proof fn law_leaving_removes_only_the_leaver(
    m: Map<Seq<char>, Set<Seq<char>>>,
    k: Seq<char>,
    u: Seq<char>,
    v: Seq<char>,
)
    ensures
        m.contains_key(k) && m[k].contains(v) && v != u ==> leaving(m, k, u).contains_key(k)
            && leaving(m, k, u)[k].contains(v),
        leaving(m, k, u).contains_key(k) ==> m.contains_key(k) && leaving(m, k, u)[k].subset_of(
            m[k],
        ),
        m.contains_key(k) && !m[k].contains(u) && !m[k].is_empty() ==> leaving(m, k, u) == m,
        !m.contains_key(k) ==> leaving(m, k, u) == m,
{
    if m.contains_key(k) && m[k].contains(v) && v != u {
        assert(m[k].remove(u).contains(v));
    }
    if m.contains_key(k) && !m[k].contains(u) && !m[k].is_empty() {
        assert(m[k].remove(u) =~= m[k]);
        assert(leaving(m, k, u) =~= m);
    }
}

/// Leaving a voice channel undoes joining it when the channel did not exist
/// before.
pub proof fn law_leave_undoes_join(m: Map<Seq<char>, Set<Seq<char>>>, k: Seq<char>, u: Seq<char>)
    requires
        !m.contains_key(k),
    ensures
        leaving(with_member(m, k, u), k, u) == m,
{
    assert(Set::<Seq<char>>::empty().insert(u).remove(u) =~= Set::empty());
    assert(leaving(with_member(m, k, u), k, u) =~= m);
}

/// After joining the rooms of a list of servers, the user sits in each of
/// them and the rooms of other servers are unchanged.
pub proof fn law_join_server_rooms(
    m: Map<Seq<char>, Set<Seq<char>>>,
    ks: Seq<Seq<char>>,
    u: Seq<char>,
    k: Seq<char>,
)
    ensures
        ks.contains(k) ==> with_member_in_all(m, ks, u).contains_key(k) && with_member_in_all(
            m,
            ks,
            u,
        )[k].contains(u),
        !ks.contains(k) ==> (with_member_in_all(m, ks, u).contains_key(k) == m.contains_key(k) && (
        m.contains_key(k) ==> with_member_in_all(m, ks, u)[k] == m[k])),
        m.contains_key(k) ==> with_member_in_all(m, ks, u).contains_key(k) && m[k].subset_of(
            with_member_in_all(m, ks, u)[k],
        ),
    decreases ks.len(),
{
    if ks.len() > 0 {
        let prefix = ks.drop_last();
        law_join_server_rooms(m, prefix, u, k);
        if ks.contains(k) && !prefix.contains(k) {
            let i = choose|i: int| 0 <= i < ks.len() && ks[i] == k;
            if i < prefix.len() {
                assert(prefix[i] == k);
            }
        }
        if prefix.contains(k) {
            let i = choose|i: int| 0 <= i < prefix.len() && prefix[i] == k;
            assert(ks[i] == k);
        }
        if !ks.contains(k) {
            assert(ks.last() != k) by {
                assert(ks[ks.len() - 1] == ks.last());
            }
            if prefix.contains(k) {
                let i = choose|i: int| 0 <= i < prefix.len() && prefix[i] == k;
                assert(ks[i] == k);
            }
        }
    }
}

} // verus!
