//! Verified core of a workspace tool manager: command-template
//! interpolation, command classification, the spawn/wait policy, and a
//! fail-fast runner for ordered action lists. Process launching, file and
//! terminal I/O live outside this crate; the logic here is pure and proved.

pub mod config;
pub mod global_config;
pub mod runner;
pub mod strings;

use vstd::prelude::*;

verus! {

} // verus!
