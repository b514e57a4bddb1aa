//! Loading a game catalog: one XML document describes the games of one
//! platform, and every `game` element becomes one row of the `raw_games` table.
//!
//! The crate holds the rules of that load and proves them. Reading the file and
//! talking to the database are left to the caller, who is told what to do next
//! by the [`loader::Loader`] and reports back what happened.

pub mod text;
pub mod xml;
pub mod parse;
pub mod record;
pub mod error;
pub mod store;
pub mod loader;
pub mod run;
