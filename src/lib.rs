//! A small actor runtime: typed and type-erased addresses onto mailboxes,
//! the behaviour protocol that actors implement, and the decision core of
//! the loop that drives one actor.

pub mod address;
pub mod behaviour;
pub mod actor;
pub mod pingpong;
