//! The player: its jump and dash budgets, its movement state machine, its
//! attack hitbox and the reading of its contacts.

pub mod jump;
pub mod dash;
pub mod movement;
pub mod attack;
pub mod collision;
pub mod laws;
