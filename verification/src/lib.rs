//! Decoding of BGP routing feeds into typed routing events.
//!
//! A [`Query`] collects filters, a time interval and data source options,
//! and lists what opening a stream asks of the data source. A
//! [`stream::BgpStream`] turns what the data source answers, pull by pull,
//! into [`element::Element`]s: announcements, RIB entries, withdrawals and
//! peer state changes.
//!
//! The crate does no input or output. Whoever owns the data source pulls
//! from it and hands each answer in as plain values: a
//! [`record::RecordPull`] for a record, an [`element::ElementPull`] for an
//! element.

pub mod address;
pub mod collector;
pub mod element;
pub mod error;
pub mod query;
pub mod record;
pub mod setup;
pub mod stream;
pub mod text;
pub mod timestamp;

pub use error::BgpStreamError;
pub use stream::Query;
