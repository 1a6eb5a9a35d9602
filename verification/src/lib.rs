//! Core of a GitHub activity summarizer: deterministic text budgeting,
//! quote stripping, proportional budget allocation across sources, and the
//! two-call chat-completion protocol that turns budgeted text into one
//! weekly narrative.

pub mod allocate;
pub mod budget;
pub mod chain;
pub mod correlate;
pub mod entries;
pub mod queries;
pub mod records;
pub mod reports;
pub mod quote;
pub mod squeeze;
pub mod summarize;
pub mod support;
pub mod text;
pub mod tokens;

use vstd::prelude::*;

verus! {

} // verus!
