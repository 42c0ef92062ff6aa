use vstd::prelude::*;

verus! {

/// The names that a list of strings holds, in order.
pub open spec fn names(rooms: Seq<String>) -> Seq<Seq<char>> {
    rooms.map_values(|room: String| room@)
}

/// The names of a list are the list's strings one by one, in the same order.
pub proof fn lemma_names_laws(rooms: Seq<String>)
    ensures
        names(rooms).len() == rooms.len(),
        forall|i: int| 0 <= i < rooms.len() ==> #[trigger] names(rooms)[i] == rooms[i]@,
{
}

/// A room list after adding `room` once: unchanged if it already holds the
/// name, else with the name appended.
pub open spec fn with_room(rooms: Seq<Seq<char>>, room: Seq<char>) -> Seq<Seq<char>> {
    if rooms.contains(room) {
        rooms
    } else {
        rooms.push(room)
    }
}

/// Adds `room` to a cluster's room list unless the list already holds it.
pub fn add_room_once(rooms: &mut Vec<String>, room: &str)
    ensures
        names(final(rooms)@) == with_room(names(old(rooms)@), room@),
{
    let name = room.to_owned();
    let mut i: usize = 0;
    while i < rooms.len()
        invariant
            i <= rooms@.len(),
            rooms@ == old(rooms)@,
            name@ == room@,
            forall|k: int| 0 <= k < i ==> rooms@[k]@ != room@,
        decreases rooms@.len() - i,
    {
        if rooms[i] == name {
            assert(names(rooms@)[i as int] == room@);
            return;
        }
        i = i + 1;
    }
    assert(!names(rooms@).contains(room@));
    rooms.push(name);
    assert(names(rooms@) =~= names(old(rooms)@).push(room@));
}

/// After adding a room the list holds it; a list without repeated names stays
/// without them; and adding the same room twice is the same as adding it once.
pub proof fn lemma_add_room_once_laws(rooms: Seq<Seq<char>>, room: Seq<char>)
    ensures
        with_room(rooms, room).contains(room),
        rooms.no_duplicates() ==> with_room(rooms, room).no_duplicates(),
        with_room(with_room(rooms, room), room) == with_room(rooms, room),
        with_room(rooms, room).len() == rooms.len() + if rooms.contains(room) { 0int } else { 1int },
        forall|i: int| 0 <= i < rooms.len() ==> #[trigger] with_room(rooms, room)[i] == rooms[i],
        forall|x: Seq<char>| #[trigger] with_room(rooms, room).contains(x) <==> (rooms.contains(x)
            || x == room),
        !rooms.contains(room) ==> with_room(rooms, room)[rooms.len() as int] == room,
{
    let after = with_room(rooms, room);
    assert forall|i: int| 0 <= i < rooms.len() implies #[trigger] after[i] == rooms[i] by {
        if !rooms.contains(room) {
            assert(after == rooms.push(room));
        }
    }
    assert forall|x: Seq<char>| #[trigger] after.contains(x) <==> (rooms.contains(x) || x == room) by {
        if rooms.contains(x) {
            let i = choose|i: int| 0 <= i < rooms.len() && rooms[i] == x;
            assert(0 <= i < rooms.len());
            assert(after[i] == rooms[i]);
            assert(after.len() >= rooms.len());
            assert(after[i] == x);
        }
        if x == room && !rooms.contains(room) {
            assert(after[rooms.len() as int] == room);
        }
        if after.contains(x) && !rooms.contains(room) {
            let i = choose|i: int| 0 <= i < after.len() && after[i] == x;
            if i < rooms.len() {
                assert(rooms[i] == x);
            }
        }
    }
    if !rooms.contains(room) {
        let after = rooms.push(room);
        assert(after[rooms.len() as int] == room);
    }
}

} // verus!
