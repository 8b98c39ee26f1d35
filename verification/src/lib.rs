//! Pokédex collection tracker: the logic behind the command-line tool.
use vstd::prelude::*;

pub mod text;
pub mod output;
pub mod db;
pub mod cli;
pub mod commands;
pub mod discover;
pub mod laws;
pub mod data_laws;

verus! {

} // verus!
