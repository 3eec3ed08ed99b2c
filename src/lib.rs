//! Bisection over an integer-like search space, with witnesses threaded
//! through the classification.

use vstd::prelude::*;

mod between;
mod search;

pub use between::Betweenable;
pub use search::{binary_search, narrow, splits_at, Direction};
