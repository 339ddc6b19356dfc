//! What the first servers sent.

pub mod whist_info;
