//! The records that the tools show and the cache store keeps.

use vstd::prelude::*;

pub mod github;
pub mod unicode;
