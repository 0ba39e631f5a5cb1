use vstd::prelude::*;
use crate::room::{Room, RoomView};

verus! {

/// The rooms after a room of the given name, not selected, is appended.
pub open spec fn added(rooms: Seq<RoomView>, name: Seq<char>) -> Seq<RoomView> {
    rooms.push((name, false))
}

/// The rooms after a selection of `target`: the same names in the same
/// order, each room active exactly when its name is `target`.
pub open spec fn selected(rooms: Seq<RoomView>, target: Seq<char>) -> Seq<RoomView> {
    rooms.map_values(|r: RoomView| (r.0, r.0 == target))
}

/// The number of rooms marked active.
pub open spec fn count_active(rooms: Seq<RoomView>) -> nat
    decreases rooms.len(),
{
    if rooms.len() == 0 {
        0
    } else {
        count_active(rooms.drop_last()) + if rooms.last().1 { 1nat } else { 0nat }
    }
}

/// The number of rooms whose name is `name`.
pub open spec fn count_named(rooms: Seq<RoomView>, name: Seq<char>) -> nat
    decreases rooms.len(),
{
    if rooms.len() == 0 {
        0
    } else {
        count_named(rooms.drop_last(), name) + if rooms.last().0 == name { 1nat } else { 0nat }
    }
}

/// The room list shared by every part of the client that shows or changes
/// rooms. Rooms are only ever appended, and only their flags change.
#[derive(Debug)]
pub struct GlobalState {
    rooms: Vec<Room>,
}

impl View for GlobalState {
    type V = Seq<RoomView>;

    closed spec fn view(&self) -> Seq<RoomView> {
        self.rooms@.map_values(|r: Room| r@)
    }
}

impl GlobalState {
    /// A state with no rooms.
    pub fn new() -> (r: GlobalState)
        ensures
            r@ == Seq::<RoomView>::empty(),
    {
        let r = GlobalState { rooms: Vec::new() };
        assert(r@ =~= Seq::<RoomView>::empty());
        r
    }

    /// The rooms, in the order in which they were added.
    pub fn rooms(&self) -> (r: &Vec<Room>)
        ensures
            r@.map_values(|x: Room| x@) == self@,
    {
        &self.rooms
    }

    /// Appends a room of the given name, not selected. Any name is taken,
    /// the empty one and one already in use included.
    pub fn add_room(&mut self, name: String)
        ensures
            final(self)@ == added(old(self)@, name@),
    {
        let room = Room::new(name);
        self.rooms.push(room);
        assert(self@ =~= added(old(self)@, name@));
    }
}

/// Selects the rooms named `room_name`: every room is visited, and its flag is
/// set to whether its name equals `room_name`. Where no room has that name,
/// none is left active; where several have it, all of them are.
pub fn change_room(state: &mut GlobalState, room_name: &String)
    ensures
        final(state)@ == selected(old(state)@, room_name@),
{
    let n = state.rooms.len();
    let mut i: usize = 0;
    while i < n
        invariant
            0 <= i <= n,
            n == old(state)@.len(),
            state@.len() == n,
            forall|j: int| 0 <= j < i ==> state@[j] == selected(old(state)@, room_name@)[j],
            forall|j: int| i <= j < n ==> state@[j] == old(state)@[j],
        decreases n - i,
    {
        let ghost before = state@;
        let matches = *state.rooms[i].name() == *room_name;
        state.rooms[i].set_active(matches);
        assert(state@ =~= before.update(i as int, (before[i as int].0, matches)));
        i = i + 1;
    }
    assert(state@ =~= selected(old(state)@, room_name@));
}

} // verus!
