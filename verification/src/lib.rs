//! Small verified exercises on ownership, borrowing and text scanning.
//!
//! Every function returns the values it produced instead of printing them, so
//! that each contract can say exactly what a caller will observe.

pub mod borrowing;
pub mod copy_move;
pub mod search;
pub mod vowels;
