//! Data-management core for an embeddable, editable data-table widget.
//!
//! The store owns an ordered collection of application-defined row records
//! together with two pieces of derived state: a lazily built, optional
//! Presentation Cache (torn down whenever a mutation changes row membership)
//! and an independent Dirty Flag (a cheap "changed since last acknowledged"
//! signal). Every mutation operation carries a fixed cache-invalidation
//! effect, stated in its contract and proved against the ghost model in
//! [`model`].

pub mod model;
pub mod store;

pub use store::Spreadsheet;
