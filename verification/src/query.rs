//! Queries: what a caller wants from a stream, collected before the stream
//! is opened.
//!
//! Filters of the same kind are alternatives: an item passes if it meets
//! any of them. Filters of different kinds are demands: an item passes only
//! if it meets a filter of every kind that the query names.

use vstd::prelude::*;

use crate::collector::Collector;
use crate::error::BgpStreamError;
use crate::text::{contains_nul, has_nul};
use crate::timestamp::Timestamp;

verus! {

/// The time interval that a stream covers.
#[derive(Debug, PartialEq, Eq, Hash, Clone, Copy)]
pub enum FilterInterval {
    /// No bound at either end.
    Open,
    /// From `start` to `stop`. Without a `stop` the stream is live: once
    /// the past is read it waits for what comes next, without end.
    Interval { start: Timestamp, stop: Option<Timestamp> },
    /// From `amount` units ago until now. With `live` set the stream then
    /// goes on with what comes next, without end.
    Since { amount: usize, unit: TimeUnit, live: bool },
}

impl Default for FilterInterval {
    fn default() -> (r: Self)
        ensures
            r == FilterInterval::Open,
    {
        FilterInterval::Open
    }
}

/// Unit of a relative interval.
#[derive(Debug, PartialEq, Eq, Hash, Clone, Copy, Structural)]
pub enum TimeUnit {
    Seconds,
    Minutes,
    Hours,
    Days,
}

impl TimeUnit {
    /// The letter that stands for the unit in an interval descriptor.
    pub open spec fn spec_letter(self) -> Seq<char> {
        match self {
            TimeUnit::Seconds => "s"@,
            TimeUnit::Minutes => "m"@,
            TimeUnit::Hours => "h"@,
            TimeUnit::Days => "d"@,
        }
    }

    /// The letter that stands for the unit in an interval descriptor.
    pub fn letter(&self) -> (s: &'static str)
        ensures
            s@ == self.spec_letter(),
    {
        match self {
            TimeUnit::Seconds => "s",
            TimeUnit::Minutes => "m",
            TimeUnit::Hours => "h",
            TimeUnit::Days => "d",
        }
    }

    /// Prints the unit as its letter.
    pub fn to_string(&self) -> (s: String)
        ensures
            s@ == self.spec_letter(),
    {
        self.letter().to_owned()
    }
}

/// The address family of a prefix.
#[derive(Debug, PartialEq, Eq, Hash, Clone, Copy, Structural)]
pub enum IpVersion {
    IPv4,
    IPv6,
}

/// The kinds of record.
#[derive(Debug, PartialEq, Eq, Hash, Clone, Copy, Structural)]
pub enum RecordType {
    /// Incremental updates, which come often.
    Updates,
    /// Whole tables, which come rarely.
    RIBs,
}

/// How a prefix filter compares a prefix with the one it names.
#[derive(Debug, PartialEq, Eq, Hash, Clone, Copy, Structural)]
pub enum PrefixMatchType {
    /// The same prefix, a less specific or a more specific one.
    Any,
    /// The same prefix only.
    Exact,
    /// The same prefix or a less specific one.
    Less,
    /// The same prefix or a more specific one.
    More,
}

/// The projects that run collectors.
#[derive(Debug, PartialEq, Eq, Hash, Clone, Copy, Structural)]
pub enum Project {
    RouteViews,
    RIS,
}

/// The kinds of element that an element type filter can name.
#[derive(Debug, PartialEq, Eq, Hash, Clone, Copy, Structural)]
pub enum ElementTypeDescr {
    RIBs,
    Withdrawals,
    Announcements,
    PeerStates,
}

/// What a filter looks at.
#[derive(Debug, PartialEq, Eq, Hash, Clone, Copy, Structural)]
pub enum FilterKind {
    RecordType,
    Collector,
    Project,
    AsPath,
    Community,
    IpVersion,
    OriginAsn,
    PeerAsn,
    NotPeerAsn,
    PrefixAny,
    PrefixExact,
    PrefixLess,
    PrefixMore,
    ElemType,
}

/// One filter of a query: what it looks at and the value it looks for.
#[derive(Debug, Clone, PartialEq, Eq)]
pub struct Filter {
    pub kind: FilterKind,
    pub value: String,
}

/// One option of a data interface of the data source.
#[derive(Debug, Clone, PartialEq, Eq)]
pub struct DataInterfaceOption {
    pub interface: String,
    pub option: String,
    pub value: String,
}

/// What a [`Query`] holds.
pub struct QueryView {
    /// The filters, in the order in which they were added.
    pub filters: Seq<(FilterKind, Seq<char>)>,
    pub interval: FilterInterval,
    pub rib_period: Option<u32>,
    /// The data interface options as interface, option and value, in the
    /// order in which they were added.
    pub options: Seq<(Seq<char>, Seq<char>, Seq<char>)>,
}

impl QueryView {
    /// The query with no filter, no bound in time, no RIB period and no
    /// option.
    pub open spec fn empty() -> QueryView {
        QueryView {
            filters: Seq::empty(),
            interval: FilterInterval::Open,
            rib_period: None,
            options: Seq::empty(),
        }
    }

    /// This query with one more filter at the end.
    pub open spec fn with_filter(self, kind: FilterKind, value: Seq<char>) -> QueryView {
        QueryView { filters: self.filters.push((kind, value)), ..self }
    }

    /// This query with another interval.
    pub open spec fn with_interval(self, interval: FilterInterval) -> QueryView {
        QueryView { interval, ..self }
    }

    /// This query with a RIB period.
    pub open spec fn with_rib_period(self, secs: u32) -> QueryView {
        QueryView { rib_period: Some(secs), ..self }
    }

    /// This query with one more data interface option at the end.
    pub open spec fn with_option(
        self,
        interface: Seq<char>,
        option: Seq<char>,
        value: Seq<char>,
    ) -> QueryView {
        QueryView { options: self.options.push((interface, option, value)), ..self }
    }

    /// No string of the query holds a NUL character.
    pub open spec fn wf(self) -> bool {
        &&& forall|i: int| 0 <= i < self.filters.len() ==> !has_nul(#[trigger] self.filters[i].1)
        &&& forall|i: int|
            0 <= i < self.options.len() ==> {
                &&& !has_nul((#[trigger] self.options[i]).0)
                &&& !has_nul(self.options[i].1)
                &&& !has_nul(self.options[i].2)
            }
    }
}

/// Whether the item meets the filter at index `j`. A filter without an
/// answer counts as not met.
pub open spec fn meets(filters: Seq<(FilterKind, Seq<char>)>, hits: Seq<bool>, j: int) -> bool {
    0 <= j < filters.len() && j < hits.len() && hits[j]
}

/// Whether the item meets some filter of the kind of the filter at index
/// `i`.
pub open spec fn kind_met(filters: Seq<(FilterKind, Seq<char>)>, hits: Seq<bool>, i: int) -> bool {
    exists|j: int| #[trigger] meets(filters, hits, j) && filters[j].0 == filters[i].0
}

/// Whether a query with these filters selects an item, given for each
/// filter whether the item meets it. The item is selected when, for every
/// kind of filter that the query names, it meets at least one filter of
/// that kind.
pub open spec fn selects(filters: Seq<(FilterKind, Seq<char>)>, hits: Seq<bool>) -> bool {
    forall|i: int| 0 <= i < filters.len() ==> #[trigger] kind_met(filters, hits, i)
}

/// Two filters of the same kind are alternatives: the query selects what
/// meets the one or the other.
pub proof fn lemma_same_kind_is_or(kind: FilterKind, a: Seq<char>, b: Seq<char>, hits: Seq<bool>)
    requires
        hits.len() == 2,
    ensures
        selects(seq![(kind, a), (kind, b)], hits) <==> (hits[0] || hits[1]),
{
    let filters = seq![(kind, a), (kind, b)];
    if hits[0] || hits[1] {
        let j = if hits[0] { 0int } else { 1int };
        assert(meets(filters, hits, j));
        assert(kind_met(filters, hits, 0));
        assert(kind_met(filters, hits, 1));
    } else {
        assert(!kind_met(filters, hits, 0));
    }
}

/// Two filters of different kinds are both demands: the query selects
/// what meets the one and the other.
pub proof fn lemma_different_kinds_is_and(
    kind_a: FilterKind,
    a: Seq<char>,
    kind_b: FilterKind,
    b: Seq<char>,
    hits: Seq<bool>,
)
    requires
        hits.len() == 2,
        kind_a != kind_b,
    ensures
        selects(seq![(kind_a, a), (kind_b, b)], hits) <==> (hits[0] && hits[1]),
{
    let filters = seq![(kind_a, a), (kind_b, b)];
    if hits[0] && hits[1] {
        assert(meets(filters, hits, 0));
        assert(meets(filters, hits, 1));
        assert(kind_met(filters, hits, 0));
        assert(kind_met(filters, hits, 1));
    } else if !hits[0] {
        assert(!kind_met(filters, hits, 0));
    } else {
        assert(!kind_met(filters, hits, 1));
    }
}

/// A query: filters, a time interval, a RIB period and data interface
/// options, collected call by call and read when a stream is opened.
///
/// No string that a query holds contains a NUL character: the methods that
/// take a string refuse one that does, with `StringContainsNull`, and leave
/// the query as it was.
#[derive(Debug, Clone)]
pub struct Query {
    filters: Vec<Filter>,
    interval: FilterInterval,
    rib_period: Option<u32>,
    data_interface_options: Vec<DataInterfaceOption>,
}

impl View for Query {
    type V = QueryView;

    closed spec fn view(&self) -> QueryView {
        QueryView {
            filters: Seq::new(
                self.filters@.len(),
                |i: int| (self.filters@[i].kind, self.filters@[i].value@),
            ),
            interval: self.interval,
            rib_period: self.rib_period,
            options: Seq::new(
                self.data_interface_options@.len(),
                |i: int|
                    (
                        self.data_interface_options@[i].interface@,
                        self.data_interface_options@[i].option@,
                        self.data_interface_options@[i].value@,
                    ),
            ),
        }
    }
}

impl Default for Query {
    fn default() -> (q: Self)
        ensures
            q@ == QueryView::empty(),
            q@.wf(),
    {
        Query::new()
    }
}

impl Query {
    /// An empty query: no filter, no bound in time, no RIB period, no
    /// option.
    pub fn new() -> (q: Self)
        ensures
            q@ == QueryView::empty(),
            q@.wf(),
    {
        let q = Query {
            filters: Vec::new(),
            interval: FilterInterval::Open,
            rib_period: None,
            data_interface_options: Vec::new(),
        };
        assert(q@.filters =~= Seq::empty());
        assert(q@.options =~= Seq::empty());
        q
    }

    /// The filters, in the order in which they were added.
    pub fn filters(&self) -> (filters: &Vec<Filter>)
        ensures
            filters@.len() == self@.filters.len(),
            forall|i: int|
                0 <= i < filters@.len() ==> (#[trigger] filters@[i]).kind == self@.filters[i].0
                    && filters@[i].value@ == self@.filters[i].1,
    {
        &self.filters
    }

    /// The data interface options, in the order in which they were added.
    pub fn data_interface_options(&self) -> (options: &Vec<DataInterfaceOption>)
        ensures
            options@.len() == self@.options.len(),
            forall|i: int|
                0 <= i < options@.len() ==> (#[trigger] options@[i]).interface@
                    == self@.options[i].0 && options@[i].option@ == self@.options[i].1
                    && options@[i].value@ == self@.options[i].2,
    {
        &self.data_interface_options
    }

    /// The time interval of the query.
    pub fn time_interval(&self) -> (interval: FilterInterval)
        ensures
            interval == self@.interval,
    {
        self.interval
    }

    /// The RIB period of the query, if one was set.
    pub fn rib_period_seconds(&self) -> (period: Option<u32>)
        ensures
            period == self@.rib_period,
    {
        self.rib_period
    }

    /// Appends a filter whose value is known to hold no NUL.
    fn push_filter(&mut self, kind: FilterKind, value: &str) -> (ret: &mut Self)
        requires
            !has_nul(value@),
        ensures
            ret@ == old(self)@.with_filter(kind, value@),
            old(self)@.wf() ==> ret@.wf(),
            *final(self) == *final(ret),
    {
        self.filters.push(Filter { kind, value: value.to_owned() });
        assert(self@.filters =~= old(self)@.filters.push((kind, value@)));
        assert(self@.options =~= old(self)@.options);
        self
    }

    /// Adds a filter of any kind. A value with a NUL character is refused
    /// with `StringContainsNull`, and the query stays as it was.
    pub fn add_filter(&mut self, kind: FilterKind, value: &str) -> (ret: Result<
        &mut Self,
        BgpStreamError,
    >)
        ensures
            has_nul(value@) ==> ret is Err && ret->Err_0 == BgpStreamError::StringContainsNull
                && *final(self) == *old(self),
            !has_nul(value@) ==> ret is Ok && ret->Ok_0@ == old(self)@.with_filter(kind, value@)
                && (old(self)@.wf() ==> ret->Ok_0@.wf()) && *final(self) == *final(ret->Ok_0),
    {
        if contains_nul(value) {
            Err(BgpStreamError::StringContainsNull)
        } else {
            Ok(self.push_filter(kind, value))
        }
    }

    /// Keeps the records of one kind: updates or RIBs.
    pub fn record_type(&mut self, t: RecordType) -> (ret: &mut Self)
        ensures
            ret@ == old(self)@.with_filter(
                FilterKind::RecordType,
                match t {
                    RecordType::Updates => "updates"@,
                    RecordType::RIBs => "ribs"@,
                },
            ),
            old(self)@.wf() ==> ret@.wf(),
            *final(self) == *final(ret),
    {
        proof {
            reveal_strlit("updates");
            reveal_strlit("ribs");
        }
        let value = match t {
            RecordType::Updates => "updates",
            RecordType::RIBs => "ribs",
        };
        self.push_filter(FilterKind::RecordType, value)
    }

    /// Keeps what one collector of the catalogue has seen.
    pub fn collector(&mut self, collector: Collector) -> (ret: &mut Self)
        ensures
            ret@ == old(self)@.with_filter(FilterKind::Collector, collector.spec_name()),
            old(self)@.wf() ==> ret@.wf(),
            *final(self) == *final(ret),
    {
        let value = collector.name();
        self.push_filter(FilterKind::Collector, value)
    }

    /// Keeps what the collector of the given name has seen.
    pub fn collector_name(&mut self, s: &str) -> (ret: Result<&mut Self, BgpStreamError>)
        ensures
            has_nul(s@) ==> ret is Err && ret->Err_0 == BgpStreamError::StringContainsNull
                && *final(self) == *old(self),
            !has_nul(s@) ==> ret is Ok && ret->Ok_0@ == old(self)@.with_filter(
                FilterKind::Collector,
                s@,
            ) && (old(self)@.wf() ==> ret->Ok_0@.wf()) && *final(self) == *final(ret->Ok_0),
    {
        self.add_filter(FilterKind::Collector, s)
    }

    /// Keeps what the collectors of one project have seen.
    pub fn project(&mut self, project: Project) -> (ret: &mut Self)
        ensures
            ret@ == old(self)@.with_filter(
                FilterKind::Project,
                match project {
                    Project::RouteViews => "routeviews"@,
                    Project::RIS => "ris"@,
                },
            ),
            old(self)@.wf() ==> ret@.wf(),
            *final(self) == *final(ret),
    {
        proof {
            reveal_strlit("routeviews");
            reveal_strlit("ris");
        }
        let value = match project {
            Project::RouteViews => "routeviews",
            Project::RIS => "ris",
        };
        self.push_filter(FilterKind::Project, value)
    }

    /// Keeps the elements whose AS path matches a regular expression. In
    /// it `^` stands for the start of the path, `$` for its end and `_`
    /// between two neighbouring AS numbers.
    pub fn as_path(&mut self, s: &str) -> (ret: Result<&mut Self, BgpStreamError>)
        ensures
            has_nul(s@) ==> ret is Err && ret->Err_0 == BgpStreamError::StringContainsNull
                && *final(self) == *old(self),
            !has_nul(s@) ==> ret is Ok && ret->Ok_0@ == old(self)@.with_filter(
                FilterKind::AsPath,
                s@,
            ) && (old(self)@.wf() ==> ret->Ok_0@.wf()) && *final(self) == *final(ret->Ok_0),
    {
        self.add_filter(FilterKind::AsPath, s)
    }

    /// Keeps the elements that carry a community. The value is written
    /// `asn:value`; an asterisk on either side stands for any number.
    pub fn community(&mut self, s: &str) -> (ret: Result<&mut Self, BgpStreamError>)
        ensures
            has_nul(s@) ==> ret is Err && ret->Err_0 == BgpStreamError::StringContainsNull
                && *final(self) == *old(self),
            !has_nul(s@) ==> ret is Ok && ret->Ok_0@ == old(self)@.with_filter(
                FilterKind::Community,
                s@,
            ) && (old(self)@.wf() ==> ret->Ok_0@.wf()) && *final(self) == *final(ret->Ok_0),
    {
        self.add_filter(FilterKind::Community, s)
    }

    /// Keeps the prefixes of one address family.
    pub fn ip_version(&mut self, version: IpVersion) -> (ret: &mut Self)
        ensures
            ret@ == old(self)@.with_filter(
                FilterKind::IpVersion,
                match version {
                    IpVersion::IPv4 => "4"@,
                    IpVersion::IPv6 => "6"@,
                },
            ),
            old(self)@.wf() ==> ret@.wf(),
            *final(self) == *final(ret),
    {
        proof {
            reveal_strlit("4");
            reveal_strlit("6");
        }
        let value = match version {
            IpVersion::IPv4 => "4",
            IpVersion::IPv6 => "6",
        };
        self.push_filter(FilterKind::IpVersion, value)
    }

    /// Keeps the routes that originate in an AS.
    pub fn origin_asn(&mut self, s: &str) -> (ret: Result<&mut Self, BgpStreamError>)
        ensures
            has_nul(s@) ==> ret is Err && ret->Err_0 == BgpStreamError::StringContainsNull
                && *final(self) == *old(self),
            !has_nul(s@) ==> ret is Ok && ret->Ok_0@ == old(self)@.with_filter(
                FilterKind::OriginAsn,
                s@,
            ) && (old(self)@.wf() ==> ret->Ok_0@.wf()) && *final(self) == *final(ret->Ok_0),
    {
        self.add_filter(FilterKind::OriginAsn, s)
    }

    /// Keeps what peers of an AS have sent.
    pub fn peer_asn(&mut self, s: &str) -> (ret: Result<&mut Self, BgpStreamError>)
        ensures
            has_nul(s@) ==> ret is Err && ret->Err_0 == BgpStreamError::StringContainsNull
                && *final(self) == *old(self),
            !has_nul(s@) ==> ret is Ok && ret->Ok_0@ == old(self)@.with_filter(
                FilterKind::PeerAsn,
                s@,
            ) && (old(self)@.wf() ==> ret->Ok_0@.wf()) && *final(self) == *final(ret->Ok_0),
    {
        self.add_filter(FilterKind::PeerAsn, s)
    }

    /// Drops what peers of an AS have sent.
    pub fn not_peer_asn(&mut self, s: &str) -> (ret: Result<&mut Self, BgpStreamError>)
        ensures
            has_nul(s@) ==> ret is Err && ret->Err_0 == BgpStreamError::StringContainsNull
                && *final(self) == *old(self),
            !has_nul(s@) ==> ret is Ok && ret->Ok_0@ == old(self)@.with_filter(
                FilterKind::NotPeerAsn,
                s@,
            ) && (old(self)@.wf() ==> ret->Ok_0@.wf()) && *final(self) == *final(ret->Ok_0),
    {
        self.add_filter(FilterKind::NotPeerAsn, s)
    }

    /// The kind of filter that stands for a way of matching prefixes.
    pub open spec fn prefix_filter_kind(kind: PrefixMatchType) -> FilterKind {
        match kind {
            PrefixMatchType::Any => FilterKind::PrefixAny,
            PrefixMatchType::Exact => FilterKind::PrefixExact,
            PrefixMatchType::Less => FilterKind::PrefixLess,
            PrefixMatchType::More => FilterKind::PrefixMore,
        }
    }

    /// Keeps the elements whose prefix matches the prefix `s`, an IPv4 or
    /// IPv6 prefix in text form, in the way that `kind` names.
    pub fn prefix(&mut self, kind: PrefixMatchType, s: &str) -> (ret: Result<
        &mut Self,
        BgpStreamError,
    >)
        ensures
            has_nul(s@) ==> ret is Err && ret->Err_0 == BgpStreamError::StringContainsNull
                && *final(self) == *old(self),
            !has_nul(s@) ==> ret is Ok && ret->Ok_0@ == old(self)@.with_filter(
                Self::prefix_filter_kind(kind),
                s@,
            ) && (old(self)@.wf() ==> ret->Ok_0@.wf()) && *final(self) == *final(ret->Ok_0),
    {
        let filter_kind = match kind {
            PrefixMatchType::Any => FilterKind::PrefixAny,
            PrefixMatchType::Exact => FilterKind::PrefixExact,
            PrefixMatchType::Less => FilterKind::PrefixLess,
            PrefixMatchType::More => FilterKind::PrefixMore,
        };
        self.add_filter(filter_kind, s)
    }

    /// Keeps the elements of one type.
    pub fn event_type(&mut self, t: ElementTypeDescr) -> (ret: &mut Self)
        ensures
            ret@ == old(self)@.with_filter(
                FilterKind::ElemType,
                match t {
                    ElementTypeDescr::RIBs => "ribs"@,
                    ElementTypeDescr::Withdrawals => "withdrawals"@,
                    ElementTypeDescr::Announcements => "announcements"@,
                    ElementTypeDescr::PeerStates => "peerstates"@,
                },
            ),
            old(self)@.wf() ==> ret@.wf(),
            *final(self) == *final(ret),
    {
        proof {
            reveal_strlit("ribs");
            reveal_strlit("withdrawals");
            reveal_strlit("announcements");
            reveal_strlit("peerstates");
        }
        let value = match t {
            ElementTypeDescr::RIBs => "ribs",
            ElementTypeDescr::Withdrawals => "withdrawals",
            ElementTypeDescr::Announcements => "announcements",
            ElementTypeDescr::PeerStates => "peerstates",
        };
        self.push_filter(FilterKind::ElemType, value)
    }

    /// Sets the time interval of the stream, in place of the one set
    /// before.
    pub fn interval(&mut self, interval: FilterInterval) -> (ret: &mut Self)
        ensures
            ret@ == old(self)@.with_interval(interval),
            old(self)@.wf() ==> ret@.wf(),
            *final(self) == *final(ret),
    {
        self.interval = interval;
        assert(self@.filters =~= old(self)@.filters);
        assert(self@.options =~= old(self)@.options);
        self
    }

    /// Sets the least time, in seconds, between two RIBs of one collector
    /// that the stream hands out.
    pub fn rib_period(&mut self, secs: u32) -> (ret: &mut Self)
        ensures
            ret@ == old(self)@.with_rib_period(secs),
            old(self)@.wf() ==> ret@.wf(),
            *final(self) == *final(ret),
    {
        self.rib_period = Some(secs);
        assert(self@.filters =~= old(self)@.filters);
        assert(self@.options =~= old(self)@.options);
        self
    }

    /// Sets the directory in which the broker keeps its cache: the option
    /// `cache-dir` of the data interface `broker`.
    pub fn cache(&mut self, dir: &str) -> (ret: Result<&mut Self, BgpStreamError>)
        ensures
            has_nul(dir@) ==> ret is Err && ret->Err_0 == BgpStreamError::StringContainsNull
                && *final(self) == *old(self),
            !has_nul(dir@) ==> ret is Ok && ret->Ok_0@ == old(self)@.with_option(
                "broker"@,
                "cache-dir"@,
                dir@,
            ) && (old(self)@.wf() ==> ret->Ok_0@.wf()) && *final(self) == *final(ret->Ok_0),
    {
        match self.set_data_interface_option("broker", "cache-dir", dir) {
            Ok(()) => Ok(self),
            Err(e) => {
                proof {
                    reveal_strlit("broker");
                    reveal_strlit("cache-dir");
                }
                Err(e)
            },
        }
    }

    /// Sets an option of a data interface. If one of the three strings
    /// holds a NUL character the call is refused with `StringContainsNull`,
    /// and the query stays as it was.
    pub fn set_data_interface_option(&mut self, interface_name: &str, option: &str, value: &str) -> (r:
        Result<(), BgpStreamError>)
        ensures
            has_nul(interface_name@) || has_nul(option@) || has_nul(value@) ==> r == Err::<
                (),
                BgpStreamError,
            >(BgpStreamError::StringContainsNull) && *final(self) == *old(self),
            !(has_nul(interface_name@) || has_nul(option@) || has_nul(value@)) ==> r is Ok
                && final(self)@ == old(self)@.with_option(interface_name@, option@, value@) && (old(
                self,
            )@.wf() ==> final(self)@.wf()),
    {
        if contains_nul(interface_name) || contains_nul(option) || contains_nul(value) {
            return Err(BgpStreamError::StringContainsNull);
        }
        self.data_interface_options.push(
            DataInterfaceOption {
                interface: interface_name.to_owned(),
                option: option.to_owned(),
                value: value.to_owned(),
            },
        );
        assert(self@.filters =~= old(self)@.filters);
        assert(self@.options =~= old(self)@.options.push((interface_name@, option@, value@)));
        Ok(())
    }

    /// Tells whether the query selects an item, given for each filter, in
    /// the order in which the filters were added, whether the item meets
    /// it. Filters of one kind are alternatives, and every kind that the
    /// query names must be met.
    pub fn matches(&self, hits: &Vec<bool>) -> (selected: bool)
        ensures
            selected == selects(self@.filters, hits@),
    {
        let n = self.filters.len();
        let ghost filters = self@.filters;
        let mut i: usize = 0;
        while i < n
            invariant
                0 <= i <= n,
                n == self.filters@.len(),
                filters == self@.filters,
                forall|k: int| 0 <= k < i ==> #[trigger] kind_met(filters, hits@, k),
            decreases n - i,
        {
            let mut found = false;
            let mut j: usize = 0;
            while j < n && !found
                invariant
                    0 <= j <= n,
                    0 <= i < n,
                    n == self.filters@.len(),
                    filters == self@.filters,
                    found ==> kind_met(filters, hits@, i as int),
                    !found ==> forall|m: int|
                        0 <= m < j ==> !(#[trigger] meets(filters, hits@, m) && filters[m].0
                            == filters[i as int].0),
                decreases n - j + (if found { 0int } else { 1int }),
            {
                if j < hits.len() && hits[j] && self.filters[j].kind == self.filters[i].kind {
                    found = true;
                    assert(meets(filters, hits@, j as int) && filters[j as int].0
                        == filters[i as int].0);
                } else {
                    j += 1;
                }
            }
            if !found {
                assert(!kind_met(filters, hits@, i as int));
                return false;
            }
            i += 1;
        }
        true
    }
}

} // verus!
