//! Renaming files by replacing characters in their names.
use vstd::prelude::*;

pub mod text;
pub mod replace;
pub mod paths;
pub mod answer;
pub mod style;
pub mod messages;
pub mod session;
pub mod config;

verus! {

} // verus!
