//! Verified core of a builder for Linux distribution images.

use vstd::prelude::*;

pub mod alpine;
pub mod artifact;
pub mod cli;
pub mod clock;
pub mod context;
pub mod disk;
pub mod executor;
pub mod kernel;
pub mod licenses;
pub mod overlay;
pub mod paths;
pub mod products;
pub mod release;
pub mod runs;
pub mod sshd;
pub mod store;
pub mod tarball;
pub mod text;
pub mod users;

verus! {

} // verus!
