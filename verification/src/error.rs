//! The error type shared by every fallible operation of the crate.

use vstd::prelude::*;

verus! {

/// Everything that can go wrong while configuring a stream, pulling from it
/// or decoding what was pulled.
///
/// Nothing is retried: each error is handed to the caller as it arises, and
/// the sequence it came from is over.
#[derive(Debug, Clone, PartialEq, Eq)]
pub enum BgpStreamError {
    /// The data source could not allocate a stream handle.
    Create,
    /// The data source refused to start the configured stream.
    Start,
    /// The data source rejected a filter.
    AddFilter,
    /// The data source rejected the relative ("recent") interval.
    AddRecentInterval,
    /// The data source rejected the absolute interval.
    AddInterval,
    /// The data source rejected the RIB period.
    AddRibPeriod,
    /// Pulling the next record failed.
    GetNextRecord,
    /// The data source reported a record but handed out none.
    GetNextRecordNull,
    /// The record is corrupted, or its kind is neither update nor RIB.
    RecordCorrupted,
    /// The record is of a kind the data source cannot read.
    RecordUnsupported,
    /// The record's source is filtered out, empty or corrupted.
    RecordSourceEmptyOrCorrupted,
    /// The record carries a status this crate does not know.
    UnknownRecordStatus,
    /// Pulling the next element of a record failed.
    GetNextElement,
    /// The data source reported an element but handed out none.
    GetNextElementNull,
    /// The element carries a type tag this crate does not know.
    UnknownElementType,
    /// An address carries a version tag other than 4 or 6.
    InvalidIpAddress,
    /// A peer state code lies outside the nine known states.
    UnknownPeerState,
    /// An origin code is none of IGP, EGP and incomplete.
    UnknownOriginType,
    /// The data source knows no data interface of this name.
    InterfaceNotFound(String),
    /// The data interface knows no option of this name.
    InterfaceOptionNotFound(String),
    /// The data source refused the value of a data interface option.
    SetInterfaceOption,
    /// A mask is longer than the address it belongs to.
    InvalidMaskLen,
    /// A name is not valid UTF-8 up to its first NUL.
    InvalidText,
    /// A string handed to the query builder contains a NUL character.
    StringContainsNull,
    /// Epoch seconds lie outside the range of representable dates.
    Timestamp,
}

} // verus!
