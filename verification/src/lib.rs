//! A single-threaded, runtime-checked borrow discipline: a container that
//! hands out any number of read claims or one write claim on its payload,
//! and keeps exact count of the claims that are outstanding.

pub mod cell;
pub mod history;
pub mod ref_cell;
pub mod refs;
pub mod unsafe_cell;
