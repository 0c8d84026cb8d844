//! Ingestion core for a paginated add-on catalog.
//!
//! The crate turns raw catalog entries, as decoded from the remote API, into
//! canonical, flavor-aware add-on records: it filters the file index of each
//! entry, picks the newest eligible file per game flavor, resolves dates and
//! URLs with their documented fallbacks, and drives the pagination protocol
//! through an explicit state machine.  All of that logic is verified; the
//! HTTP transport and the JSON decoding live with the caller.

pub mod addon;
pub mod catalog;
pub mod endpoint;
pub mod error;
pub mod fetch;
pub mod flavor;
