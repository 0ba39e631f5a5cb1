use vstd::prelude::*;
use crate::room::RoomView;
use crate::store::{added, selected, count_active, count_named};

verus! {

/// The rooms after a room is added for each of `names`, in that order.
pub open spec fn added_all(rooms: Seq<RoomView>, names: Seq<Seq<char>>) -> Seq<RoomView>
    decreases names.len(),
{
    if names.len() == 0 {
        rooms
    } else {
        added(added_all(rooms, names.drop_last()), names.last())
    }
}

/// Adding a room for each of `names` grows the list by one room per call,
/// keeps the rooms that were there, and puts the new rooms, none of them
/// selected, after them in the order of the calls.
pub proof fn lemma_adds_in_order(rooms: Seq<RoomView>, names: Seq<Seq<char>>)
    ensures
        added_all(rooms, names).len() == rooms.len() + names.len(),
        forall|i: int| 0 <= i < rooms.len() ==> #[trigger] added_all(rooms, names)[i] == rooms[i],
        forall|k: int|
            0 <= k < names.len() ==> added_all(rooms, names)[rooms.len() + k] == (
            #[trigger] names[k],
            false,
        ),
    decreases names.len(),
{
    if names.len() > 0 {
        let init = names.drop_last();
        lemma_adds_in_order(rooms, init);
        assert forall|k: int| 0 <= k < names.len() implies added_all(rooms, names)[rooms.len()
            + k] == (#[trigger] names[k], false) by {
            if k < init.len() {
                assert(init[k] == names[k]);
            }
        }
    }
}

/// Adding a room changes neither the name nor the flag of any room that was
/// already there.
pub proof fn lemma_add_keeps_rooms(rooms: Seq<RoomView>, name: Seq<char>)
    ensures
        forall|i: int| 0 <= i < rooms.len() ==> #[trigger] added(rooms, name)[i] == rooms[i],
{
}

/// After a selection of `target`, as many rooms are active as there are rooms
/// named `target`: none where no name matches, several where names repeat.
pub proof fn lemma_select_counts(rooms: Seq<RoomView>, target: Seq<char>)
    ensures
        count_active(selected(rooms, target)) == count_named(rooms, target),
    decreases rooms.len(),
{
    if rooms.len() > 0 {
        let init = rooms.drop_last();
        lemma_select_counts(init, target);
        assert(selected(rooms, target).drop_last() =~= selected(init, target));
    }
}

/// Selecting the same name twice in a row leaves the rooms as one selection
/// does.
pub proof fn lemma_select_idempotent(rooms: Seq<RoomView>, target: Seq<char>)
    ensures
        selected(selected(rooms, target), target) == selected(rooms, target),
{
    assert(selected(selected(rooms, target), target) =~= selected(rooms, target));
}

/// Selecting a name that no room has leaves no room active, whatever was
/// active before.
pub proof fn lemma_select_absent(rooms: Seq<RoomView>, target: Seq<char>)
    requires
        forall|i: int| 0 <= i < rooms.len() ==> (#[trigger] rooms[i]).0 != target,
    ensures
        count_active(selected(rooms, target)) == 0,
        forall|i: int|
            0 <= i < rooms.len() ==> !(#[trigger] selected(rooms, target)[i]).1,
{
    lemma_select_counts(rooms, target);
    lemma_none_named(rooms, target);
}

proof fn lemma_none_named(rooms: Seq<RoomView>, target: Seq<char>)
    requires
        forall|i: int| 0 <= i < rooms.len() ==> (#[trigger] rooms[i]).0 != target,
    ensures
        count_named(rooms, target) == 0,
    decreases rooms.len(),
{
    if rooms.len() > 0 {
        let init = rooms.drop_last();
        assert forall|i: int| 0 <= i < init.len() implies (#[trigger] init[i]).0 != target by {
            assert(init[i] == rooms[i]);
        }
        lemma_none_named(init, target);
    }
}

} // verus!
