//! The decisions of the user-interface parts that the controller drives.

pub mod focus;
pub mod list;
pub mod search;
