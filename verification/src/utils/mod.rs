//! Small helpers shared by the state records and the instruction handlers.

pub mod text;
pub mod time;
