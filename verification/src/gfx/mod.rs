//! Drawing: the batch of vertices that rectangle fills are made of.

pub mod draw;
