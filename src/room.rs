use vstd::prelude::*;

verus! {

/// What a room is, as the contracts see it: its name and whether it is the
/// room currently selected for viewing.
pub type RoomView = (Seq<char>, bool);

/// One chat room: a display name, which is also the key that selection
/// compares, and the flag that marks it as selected.
#[derive(Debug)]
pub struct Room {
    name: String,
    active: bool,
}

impl View for Room {
    type V = RoomView;

    closed spec fn view(&self) -> RoomView {
        (self.name@, self.active)
    }
}

impl Room {
    /// A new room of the given name, not selected.
    pub fn new(name: String) -> (r: Room)
        ensures
            r@ == (name@, false),
    {
        Room { name, active: false }
    }

    /// The room's name.
    pub fn name(&self) -> (r: &String)
        ensures
            r@ == self@.0,
    {
        &self.name
    }

    /// Whether the room is the one selected for viewing.
    pub fn is_active(&self) -> (r: bool)
        ensures
            r == self@.1,
    {
        self.active
    }

    /// Marks the room as selected or not; its name is kept.
    pub fn set_active(&mut self, active: bool)
        ensures
            final(self)@ == (old(self)@.0, active),
    {
        self.active = active;
    }
}

} // verus!
