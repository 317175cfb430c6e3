//! Verified core of a git branch-workflow tool.
//!
//! The library holds the decision logic of three workflows (sync, switch,
//! delete) as a verified state machine, together with the parser for the
//! branch listing. All process execution, prompting and printing live
//! outside the library; it exchanges plain values with that shell.

pub mod branches;
pub mod laws;
pub mod machine;

use vstd::prelude::*;

verus! {

/// The three workflows the tool offers.
#[derive(Debug, Clone, Copy, PartialEq, Eq, Structural)]
pub enum GitCommands {
    Sync {},
    Switch {},
    Delete {},
}

} // verus!
