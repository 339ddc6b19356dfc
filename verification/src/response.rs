//! What the first servers answered.

pub mod whist_info;
