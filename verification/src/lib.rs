//! Client-side core of a two-party wedding agreement kept on a ledger.
//!
//! The ledger holds one agreement record per pair of participants and one
//! record per participant, each at an address derived from the identities it
//! belongs to. This library derives those addresses, builds the requests that
//! create and change the records, decides the steps of a submission, decodes
//! what is read back and tells when a record has changed. It neither reads
//! nor sends: a caller carries the bytes to and from the ledger.
//!
//! - [`address`]: addresses, the canonical order of a pair, derivation.
//! - [`layout`]: the binary layout of addresses, flags and texts.
//! - [`state`]: the two record types, their layout, reads.
//! - [`actions`]: one instruction per kind of request.
//! - [`submit`]: the steps of a submission and its failures.
//! - [`watch`]: the diff watcher.
//! - [`report`]: records and notices as text.
//! - [`network`]: endpoints and the faucet.
//! - [`util`]: transaction handles and links.

pub mod actions;
pub mod address;
pub mod layout;
pub mod network;
pub mod report;
pub mod state;
pub mod submit;
pub mod util;
pub mod watch;
