//! Small utility structures shared by the parsers.

pub mod cursor;
