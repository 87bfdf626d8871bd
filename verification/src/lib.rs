//! Typed access to the results of Swiss popular votes, as published on
//! voting day for the national and the cantonal level, together with the
//! figures usually derived from the raw counts.
//!
//! A dataset is read from its JSON text into a tree of records
//! ([`national::Data`], [`cantonal::Data`]). Every record says by a spec
//! function which documents it is read from and which document is written for
//! it, and reading what was written gives the record back. The figures derived
//! from an [`Outcome`] are exact quotients, and a figure that has no value is
//! an error, never a made-up number.
//!
//! The library fetches nothing. The [`assembler`] says which text is to be
//! fetched next, and the [`catalog`] names the latest dataset among those
//! that are published.

pub mod assembler;
pub mod cantonal;
pub mod catalog;
pub mod geo;
pub mod json;
pub mod national;
pub mod outcome;
pub mod text;
pub mod title;
pub mod wire;

pub use crate::geo::{Commune, District, Subdivisions};
pub use crate::outcome::{MetricError, Outcome, Ratio};
pub use crate::title::{IssueTitle, Lang};
