//! Verified core of git-loom: the rules that decide what git is asked to do,
//! how its answers are read, and what a paused operation does next.
use vstd::prelude::*;

pub mod cli;
pub mod fold;
pub mod fold_steps;
pub mod git;
pub mod git_commands;
pub mod graph;
pub mod init;
pub mod move_steps;
pub mod patch_route;
pub mod render;
pub mod repo;
pub mod resolve;
pub mod text;

verus! {
} // verus!
