//! State of a chat client's room list: an ordered collection of rooms, of
//! which a selection by name makes the matching rooms active and every other
//! room inactive.
pub mod room;
pub mod store;
pub mod laws;
