use chat_rooms::room::Room;
use chat_rooms::store::{change_room, GlobalState};

fn snapshot(state: &GlobalState) -> Vec<(String, bool)> {
    state
        .rooms()
        .iter()
        .map(|r| (r.name().clone(), r.is_active()))
        .collect()
}

fn pairs(items: &[(&str, bool)]) -> Vec<(String, bool)> {
    items.iter().map(|(n, a)| (n.to_string(), *a)).collect()
}

fn active_count(state: &GlobalState) -> usize {
    state.rooms().iter().filter(|r| r.is_active()).count()
}

#[test]
fn new_state_is_empty() {
    let state = GlobalState::new();
    assert!(state.rooms().is_empty());
}

#[test]
fn room_starts_inactive() {
    let mut room = Room::new("lobby".to_string());
    assert_eq!(room.name(), "lobby");
    assert!(!room.is_active());
    room.set_active(true);
    assert!(room.is_active());
    assert_eq!(room.name(), "lobby");
}

#[test]
fn adds_keep_call_order() {
    let mut state = GlobalState::new();
    for name in ["a", "b", "c", "d"] {
        state.add_room(name.to_string());
    }
    assert_eq!(state.rooms().len(), 4);
    assert_eq!(
        snapshot(&state),
        pairs(&[("a", false), ("b", false), ("c", false), ("d", false)])
    );
}

#[test]
fn add_keeps_existing_flags() {
    let mut state = GlobalState::new();
    state.add_room("x".to_string());
    state.add_room("y".to_string());
    change_room(&mut state, &"x".to_string());
    state.add_room("z".to_string());
    assert_eq!(
        snapshot(&state),
        pairs(&[("x", true), ("y", false), ("z", false)])
    );
}

#[test]
fn select_activates_duplicates() {
    let mut state = GlobalState::new();
    state.add_room("dup".to_string());
    state.add_room("other".to_string());
    state.add_room("dup".to_string());
    change_room(&mut state, &"dup".to_string());
    assert_eq!(active_count(&state), 2);
    assert_eq!(
        snapshot(&state),
        pairs(&[("dup", true), ("other", false), ("dup", true)])
    );
}

#[test]
fn select_twice_same_as_once() {
    let mut state = GlobalState::new();
    state.add_room("one".to_string());
    state.add_room("two".to_string());
    change_room(&mut state, &"two".to_string());
    let once = snapshot(&state);
    change_room(&mut state, &"two".to_string());
    assert_eq!(snapshot(&state), once);
}

#[test]
fn select_absent_name_deselects_all() {
    let mut state = GlobalState::new();
    state.add_room("General".to_string());
    state.add_room("Random".to_string());
    change_room(&mut state, &"Random".to_string());
    assert_eq!(active_count(&state), 1);
    change_room(&mut state, &"nonexistent-name".to_string());
    assert_eq!(active_count(&state), 0);
    assert_eq!(
        snapshot(&state),
        pairs(&[("General", false), ("Random", false)])
    );
}

#[test]
fn select_on_empty_state() {
    let mut state = GlobalState::new();
    change_room(&mut state, &"General".to_string());
    assert!(state.rooms().is_empty());
}

#[test]
fn general_random_walkthrough() {
    let mut state = GlobalState::new();
    state.add_room("General".to_string());
    state.add_room("Random".to_string());
    assert_eq!(
        snapshot(&state),
        pairs(&[("General", false), ("Random", false)])
    );

    change_room(&mut state, &"Random".to_string());
    assert_eq!(
        snapshot(&state),
        pairs(&[("General", false), ("Random", true)])
    );

    change_room(&mut state, &"General".to_string());
    assert_eq!(
        snapshot(&state),
        pairs(&[("General", true), ("Random", false)])
    );
}

#[test]
fn empty_name_is_accepted_and_selectable() {
    let mut state = GlobalState::new();
    state.add_room("General".to_string());
    state.add_room(String::new());
    assert_eq!(
        snapshot(&state),
        pairs(&[("General", false), ("", false)])
    );
    change_room(&mut state, &String::new());
    assert_eq!(
        snapshot(&state),
        pairs(&[("General", false), ("", true)])
    );
}
