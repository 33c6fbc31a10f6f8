//! Records: the units that a stream is pulled in, each with its metadata
//! and its own sequence of elements.

use vstd::prelude::*;
use vstd::utf8::{decode_utf8, valid_utf8};

use crate::address::{address_of, parse_bgpstream_ip, IpAddress, RawAddress};
use crate::element::{pulled_as, pulled_element_of, Element, ElementPull};
use crate::error::BgpStreamError;
use crate::text::{array_to_string, text_bytes};
use crate::timestamp::Timestamp;

verus! {

/// Status of a record that can be read.
pub const RECORD_STATUS_VALID_RECORD: u32 = 0;

/// Status of a record whose source was filtered out.
pub const RECORD_STATUS_FILTERED_SOURCE: u32 = 1;

/// Status of a record whose source holds nothing.
pub const RECORD_STATUS_EMPTY_SOURCE: u32 = 2;

/// Status of a record that lies outside the time interval asked for.
pub const RECORD_STATUS_OUTSIDE_TIME_INTERVAL: u32 = 3;

/// Status of a record whose source is corrupted.
pub const RECORD_STATUS_CORRUPTED_SOURCE: u32 = 4;

/// Status of a record that is itself corrupted.
pub const RECORD_STATUS_CORRUPTED_RECORD: u32 = 5;

/// Status of a record of a kind that the data source cannot read.
pub const RECORD_STATUS_UNSUPPORTED_RECORD: u32 = 6;

/// Type tag of a record of incremental updates.
pub const RECORD_TYPE_UPDATE: u32 = 0;

/// Type tag of a record of a table dump.
pub const RECORD_TYPE_RIB: u32 = 1;

/// A record as the data source hands it out. The three names are
/// NUL-terminated within buffers of fixed capacity.
#[derive(Debug, Clone, PartialEq, Eq)]
pub struct RawRecord {
    pub status: u32,
    pub kind: u32,
    pub time_sec: i64,
    pub time_usec: u32,
    pub project_name: Vec<u8>,
    pub collector_name: Vec<u8>,
    pub router_name: Vec<u8>,
    pub router_ip: RawAddress,
}

/// What the data source answered when asked for the next record: its
/// return code (positive for a record, zero at the end of the stream,
/// negative on failure) and the record it handed out, if any.
#[derive(Debug, Clone, PartialEq, Eq)]
pub struct RecordPull {
    pub code: i32,
    pub record: Option<RawRecord>,
}

/// One record of a stream: a snapshot of its metadata, taken when it was
/// pulled, and the state of the walk through its elements.
#[derive(Debug, Clone)]
pub struct Record {
    pub raw: RawRecord,
    pub time: Timestamp,
    /// Set once the record has returned its last element or an error.
    pub exhausted: bool,
}

/// What one pull from a stream amounts to.
#[derive(Debug, Clone)]
pub enum PulledRecord {
    /// A record to read elements from.
    Record(Record),
    /// Nothing this time: the record lay outside the time interval. The
    /// next pull may bring one.
    Skipped,
    /// The stream has no further record.
    EndOfStream,
}

/// How a pull is classified, before the record itself is looked at.
#[derive(Debug)]
pub enum RecordClass {
    /// A valid record; it remains to resolve its time.
    Valid,
    /// A record outside the time interval: skipped, no error.
    Skipped,
    /// The clean end of the stream.
    EndOfStream,
    /// A failure of the pull or a status that ends the stream.
    Failed(BgpStreamError),
}

/// How a record status is classified. The three statuses of an unusable
/// source share one error; a status that is none of the seven known ones
/// is `UnknownRecordStatus`.
pub open spec fn status_class(status: u32) -> RecordClass {
    if status == RECORD_STATUS_VALID_RECORD {
        RecordClass::Valid
    } else if status == RECORD_STATUS_FILTERED_SOURCE || status == RECORD_STATUS_EMPTY_SOURCE
        || status == RECORD_STATUS_CORRUPTED_SOURCE {
        RecordClass::Failed(BgpStreamError::RecordSourceEmptyOrCorrupted)
    } else if status == RECORD_STATUS_OUTSIDE_TIME_INTERVAL {
        RecordClass::Skipped
    } else if status == RECORD_STATUS_CORRUPTED_RECORD {
        RecordClass::Failed(BgpStreamError::RecordCorrupted)
    } else if status == RECORD_STATUS_UNSUPPORTED_RECORD {
        RecordClass::Failed(BgpStreamError::RecordUnsupported)
    } else {
        RecordClass::Failed(BgpStreamError::UnknownRecordStatus)
    }
}

/// How the answer to a pull is classified: by the return code first, then
/// by the presence of a record, then by the status of that record.
pub open spec fn pull_class(pull: RecordPull) -> RecordClass {
    if pull.code == 0 {
        RecordClass::EndOfStream
    } else if pull.code < 0 {
        RecordClass::Failed(BgpStreamError::GetNextRecord)
    } else {
        match pull.record {
            None => RecordClass::Failed(BgpStreamError::GetNextRecordNull),
            Some(raw) => status_class(raw.status),
        }
    }
}

/// The time of a raw record.
pub open spec fn record_time_of(raw: RawRecord) -> Result<Timestamp, BgpStreamError> {
    Timestamp::spec_from_unix(raw.time_sec as int, raw.time_usec as int)
}

/// Whether one pull from a stream amounts to what its answer prescribes:
/// a fresh record with the time of the raw record, a skip, the end of the
/// stream, or the error of the pull, of the status or of the time.
pub open spec fn record_pulled_as(r: Result<PulledRecord, BgpStreamError>, pull: RecordPull) -> bool {
    match pull_class(pull) {
        RecordClass::EndOfStream => r matches Ok(PulledRecord::EndOfStream),
        RecordClass::Skipped => r matches Ok(PulledRecord::Skipped),
        RecordClass::Failed(e) => r == Err::<PulledRecord, BgpStreamError>(e),
        RecordClass::Valid => match record_time_of(pull.record->Some_0) {
            Err(e) => r == Err::<PulledRecord, BgpStreamError>(e),
            Ok(time) => r matches Ok(PulledRecord::Record(record)) && record == (Record {
                raw: pull.record->Some_0,
                time,
                exhausted: false,
            }),
        },
    }
}

/// Classifies a record status.
pub fn classify_status(status: u32) -> (class: RecordClass)
    ensures
        class == status_class(status),
{
    if status == RECORD_STATUS_VALID_RECORD {
        RecordClass::Valid
    } else if status == RECORD_STATUS_FILTERED_SOURCE || status == RECORD_STATUS_EMPTY_SOURCE
        || status == RECORD_STATUS_CORRUPTED_SOURCE {
        RecordClass::Failed(BgpStreamError::RecordSourceEmptyOrCorrupted)
    } else if status == RECORD_STATUS_OUTSIDE_TIME_INTERVAL {
        RecordClass::Skipped
    } else if status == RECORD_STATUS_CORRUPTED_RECORD {
        RecordClass::Failed(BgpStreamError::RecordCorrupted)
    } else if status == RECORD_STATUS_UNSUPPORTED_RECORD {
        RecordClass::Failed(BgpStreamError::RecordUnsupported)
    } else {
        RecordClass::Failed(BgpStreamError::UnknownRecordStatus)
    }
}

impl Record {
    /// A record is well formed when its time is the time of its raw form.
    pub open spec fn wf(self) -> bool {
        record_time_of(self.raw) == Ok::<Timestamp, BgpStreamError>(self.time)
    }

    /// Turns the answer to a pull into a record, a skip, the end of the
    /// stream or an error.
    ///
    /// Return code zero is the end of the stream and a negative code is
    /// `GetNextRecord`. A record outside the time interval is skipped
    /// without error; a valid one has its time resolved; every other
    /// status is an error.
    pub fn new(pull: RecordPull) -> (r: Result<PulledRecord, BgpStreamError>)
        ensures
            record_pulled_as(r, pull),
            r matches Ok(PulledRecord::Record(record)) ==> record.wf(),
    {
        if pull.code == 0 {
            return Ok(PulledRecord::EndOfStream);
        }
        if pull.code < 0 {
            return Err(BgpStreamError::GetNextRecord);
        }
        let raw = match pull.record {
            None => { return Err(BgpStreamError::GetNextRecordNull); },
            Some(raw) => raw,
        };
        match classify_status(raw.status) {
            RecordClass::Valid => {},
            RecordClass::Skipped => { return Ok(PulledRecord::Skipped); },
            RecordClass::EndOfStream => { return Ok(PulledRecord::EndOfStream); },
            RecordClass::Failed(e) => { return Err(e); },
        }
        let time = match Timestamp::from_unix_timestamp(raw.time_sec, raw.time_usec) {
            Ok(time) => time,
            Err(e) => { return Err(e); },
        };
        Ok(PulledRecord::Record(Record { raw, time, exhausted: false }))
    }

    /// Whether the record holds incremental updates (`true`) or a table
    /// dump (`false`); any other type tag is `RecordCorrupted`.
    pub fn is_update(&self) -> (r: Result<bool, BgpStreamError>)
        ensures
            self.raw.kind == RECORD_TYPE_UPDATE ==> r == Ok::<bool, BgpStreamError>(true),
            self.raw.kind == RECORD_TYPE_RIB ==> r == Ok::<bool, BgpStreamError>(false),
            self.raw.kind != RECORD_TYPE_UPDATE && self.raw.kind != RECORD_TYPE_RIB ==> r == Err::<
                bool,
                BgpStreamError,
            >(BgpStreamError::RecordCorrupted),
    {
        if self.raw.kind == RECORD_TYPE_UPDATE {
            Ok(true)
        } else if self.raw.kind == RECORD_TYPE_RIB {
            Ok(false)
        } else {
            Err(BgpStreamError::RecordCorrupted)
        }
    }

    /// The time of the record.
    pub fn time(&self) -> (t: Timestamp)
        ensures
            t == self.time,
    {
        self.time
    }

    /// The name of the project that the record comes from.
    pub fn project_name(&self) -> (r: Result<String, BgpStreamError>)
        ensures
            r is Ok <==> valid_utf8(text_bytes(self.raw.project_name@)),
            r is Ok ==> r->Ok_0@ == decode_utf8(text_bytes(self.raw.project_name@)),
            r is Err ==> r->Err_0 == BgpStreamError::InvalidText,
    {
        array_to_string(self.raw.project_name.as_slice())
    }

    /// The name of the collector that the record comes from.
    pub fn collector_name(&self) -> (r: Result<String, BgpStreamError>)
        ensures
            r is Ok <==> valid_utf8(text_bytes(self.raw.collector_name@)),
            r is Ok ==> r->Ok_0@ == decode_utf8(text_bytes(self.raw.collector_name@)),
            r is Err ==> r->Err_0 == BgpStreamError::InvalidText,
    {
        array_to_string(self.raw.collector_name.as_slice())
    }

    /// The name of the router that the record comes from.
    pub fn router_name(&self) -> (r: Result<String, BgpStreamError>)
        ensures
            r is Ok <==> valid_utf8(text_bytes(self.raw.router_name@)),
            r is Ok ==> r->Ok_0@ == decode_utf8(text_bytes(self.raw.router_name@)),
            r is Err ==> r->Err_0 == BgpStreamError::InvalidText,
    {
        array_to_string(self.raw.router_name.as_slice())
    }

    /// The address of the router that the record comes from.
    pub fn router_ip(&self) -> (r: Result<IpAddress, BgpStreamError>)
        ensures
            r == address_of(self.raw.router_ip),
    {
        parse_bgpstream_ip(&self.raw.router_ip)
    }

    /// What the next pull yields for this record: the model of
    /// [`Record::next_element`]. An exhausted record yields nothing more.
    pub open spec fn spec_next_element(self, pull: ElementPull) -> Result<
        Option<crate::element::ElementView>,
        BgpStreamError,
    > {
        if self.exhausted {
            Ok(None)
        } else {
            pulled_element_of(pull, self.time)
        }
    }

    /// Turns the answer to a pull into the next element of this record.
    ///
    /// `Ok(None)` says that the record has no further element. That end
    /// and every error are final: from then on the record answers
    /// `Ok(None)` whatever it is handed.
    pub fn next_element(&mut self, pull: &ElementPull) -> (r: Result<Option<Element>, BgpStreamError>)
        ensures
            pulled_as(r, old(self).spec_next_element(*pull)),
            final(self).raw == old(self).raw,
            final(self).time == old(self).time,
            final(self).exhausted == !(r matches Ok(Some(_))),
            old(self).wf() ==> final(self).wf(),
    {
        if self.exhausted {
            return Ok(None);
        }
        let r = Element::new(self, pull);
        match &r {
            Ok(Some(_)) => {},
            _ => {
                self.exhausted = true;
            },
        }
        r
    }
}

} // verus!
