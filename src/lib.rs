//! Latency monitoring core: settings, probe classification, record
//! rendering and the bounded or unbounded probe cycle.

use vstd::prelude::*;

pub mod classify;
pub mod colour;
pub mod document;
pub mod monitor;
pub mod record;
pub mod settings;
pub mod text;
pub mod timestamp;

verus! {

} // verus!
