//! Routing events and their decoding from the raw payload of a data source.

use itertools::Itertools;
use vstd::prelude::*;
use vstd::string::StringExecFns;

use crate::address::{
    address_of, parse_bgpstream_ip, parse_bgpstream_prefix, prefix_of, IpAddress, IpPrefix,
    RawAddress, RawPrefix,
};
use crate::error::BgpStreamError;
use crate::record::Record;
use crate::text::{decimal, decimal_string};
use crate::timestamp::Timestamp;

verus! {

/// State of the finite state machine of a BGP session with a peer.
#[derive(Debug, Clone, Copy, PartialEq, Eq, Hash, Structural)]
pub enum PeerState {
    Idle,
    Connect,
    Active,
    OpenSent,
    OpenConfirm,
    Established,
    Clearing,
    Deleted,
    Unknown,
}

impl PeerState {
    /// The code under which a data source reports this state.
    pub open spec fn spec_code(self) -> u32 {
        match self {
            PeerState::Idle => 0,
            PeerState::Connect => 1,
            PeerState::Active => 2,
            PeerState::OpenSent => 3,
            PeerState::OpenConfirm => 4,
            PeerState::Established => 5,
            PeerState::Clearing => 6,
            PeerState::Deleted => 7,
            PeerState::Unknown => 8,
        }
    }

    /// The state that a code stands for, if it is one of the nine.
    pub open spec fn spec_try_from(value: u32) -> Result<PeerState, BgpStreamError> {
        if value == 0 {
            Ok(PeerState::Idle)
        } else if value == 1 {
            Ok(PeerState::Connect)
        } else if value == 2 {
            Ok(PeerState::Active)
        } else if value == 3 {
            Ok(PeerState::OpenSent)
        } else if value == 4 {
            Ok(PeerState::OpenConfirm)
        } else if value == 5 {
            Ok(PeerState::Established)
        } else if value == 6 {
            Ok(PeerState::Clearing)
        } else if value == 7 {
            Ok(PeerState::Deleted)
        } else if value == 8 {
            Ok(PeerState::Unknown)
        } else {
            Err(BgpStreamError::UnknownPeerState)
        }
    }

    /// The code under which a data source reports this state.
    pub fn code(&self) -> (c: u32)
        ensures
            c == self.spec_code(),
            c <= 8,
    {
        match self {
            PeerState::Idle => 0,
            PeerState::Connect => 1,
            PeerState::Active => 2,
            PeerState::OpenSent => 3,
            PeerState::OpenConfirm => 4,
            PeerState::Established => 5,
            PeerState::Clearing => 6,
            PeerState::Deleted => 7,
            PeerState::Unknown => 8,
        }
    }

}

impl TryFrom<u32> for PeerState {
    type Error = BgpStreamError;

    /// Decodes a peer state code. The codes 0 to 8 name the nine states in
    /// declaration order; every other code is `UnknownPeerState`.
    fn try_from(value: u32) -> (r: Result<PeerState, BgpStreamError>)
        ensures
            r == PeerState::spec_try_from(value),
            r is Ok <==> value <= 8,
            r is Ok ==> r->Ok_0.spec_code() == value,
    {
        match value {
            0 => Ok(PeerState::Idle),
            1 => Ok(PeerState::Connect),
            2 => Ok(PeerState::Active),
            3 => Ok(PeerState::OpenSent),
            4 => Ok(PeerState::OpenConfirm),
            5 => Ok(PeerState::Established),
            6 => Ok(PeerState::Clearing),
            7 => Ok(PeerState::Deleted),
            8 => Ok(PeerState::Unknown),
            _ => Err(BgpStreamError::UnknownPeerState),
        }
    }
}

impl vstd::std_specs::convert::TryFromSpecImpl<u32> for PeerState {
    open spec fn obeys_try_from_spec() -> bool {
        true
    }

    open spec fn try_from_spec(value: u32) -> Result<PeerState, BgpStreamError> {
        PeerState::spec_try_from(value)
    }
}

/// Codes and peer states correspond one to one: decoding the code of a
/// state gives that state back, a code that decodes is the code of what it
/// decodes to, and exactly the codes above 8 fail, with `UnknownPeerState`.
pub proof fn lemma_peer_state_codes_invertible(state: PeerState, value: u32)
    ensures
        PeerState::spec_try_from(state.spec_code()) == Ok::<PeerState, BgpStreamError>(state),
        value <= 8 ==> PeerState::spec_try_from(value) is Ok && PeerState::spec_try_from(
            value,
        )->Ok_0.spec_code() == value,
        value > 8 ==> PeerState::spec_try_from(value) == Err::<PeerState, BgpStreamError>(
            BgpStreamError::UnknownPeerState,
        ),
{
}

/// Origin attribute of a route.
#[derive(Debug, Clone, Copy, PartialEq, Eq, Hash, Structural)]
pub enum OriginType {
    Igp,
    Egp,
    Incomplete,
}

/// Origin code of a route learned from an interior gateway protocol.
pub const ORIGIN_IGP: u32 = 0;

/// Origin code of a route learned from the exterior gateway protocol.
pub const ORIGIN_EGP: u32 = 1;

/// Origin code of a route learned by other means.
pub const ORIGIN_INCOMPLETE: u32 = 2;

impl OriginType {
    /// The origin that a code stands for, if it is one of the three.
    pub open spec fn spec_try_from(value: u32) -> Result<OriginType, BgpStreamError> {
        if value == ORIGIN_IGP {
            Ok(OriginType::Igp)
        } else if value == ORIGIN_EGP {
            Ok(OriginType::Egp)
        } else if value == ORIGIN_INCOMPLETE {
            Ok(OriginType::Incomplete)
        } else {
            Err(BgpStreamError::UnknownOriginType)
        }
    }

    /// The lower-case name under which the origin is printed.
    pub fn to_string(&self) -> (s: String)
        ensures
            s@ == match *self {
                OriginType::Igp => "igp"@,
                OriginType::Egp => "bgp"@,
                OriginType::Incomplete => "incomplete"@,
            },
    {
        match self {
            OriginType::Igp => "igp".to_owned(),
            OriginType::Egp => "bgp".to_owned(),
            OriginType::Incomplete => "incomplete".to_owned(),
        }
    }
}

impl TryFrom<u32> for OriginType {
    type Error = BgpStreamError;

    /// Decodes an origin code; a code that names no origin is
    /// `UnknownOriginType`.
    fn try_from(value: u32) -> (r: Result<OriginType, BgpStreamError>)
        ensures
            r == OriginType::spec_try_from(value),
    {
        if value == ORIGIN_IGP {
            Ok(OriginType::Igp)
        } else if value == ORIGIN_EGP {
            Ok(OriginType::Egp)
        } else if value == ORIGIN_INCOMPLETE {
            Ok(OriginType::Incomplete)
        } else {
            Err(BgpStreamError::UnknownOriginType)
        }
    }
}

impl vstd::std_specs::convert::TryFromSpecImpl<u32> for OriginType {
    open spec fn obeys_try_from_spec() -> bool {
        true
    }

    open spec fn try_from_spec(value: u32) -> Result<OriginType, BgpStreamError> {
        OriginType::spec_try_from(value)
    }
}

/// Type tag of a path segment that holds a single AS number.
pub const AS_PATH_SEG_ASN: u8 = 1;

/// One segment of an AS path.
#[derive(Debug, Clone, PartialEq, Eq, Hash)]
pub enum AsSegment {
    /// A single AS number.
    Num(u32),
    /// A set of AS numbers, in the order in which it was encoded.
    AsSet(Vec<u32>),
}

/// What an [`AsSegment`] holds.
pub enum AsSegmentView {
    Num(u32),
    AsSet(Seq<u32>),
}

impl View for AsSegment {
    type V = AsSegmentView;

    open spec fn view(&self) -> AsSegmentView {
        match *self {
            AsSegment::Num(asn) => AsSegmentView::Num(asn),
            AsSegment::AsSet(list) => AsSegmentView::AsSet(list@),
        }
    }
}

/// A path segment as the data source stores it: a type tag, the AS number
/// of a single-number segment, and the members of every other kind.
#[derive(Debug, Clone, PartialEq, Eq, Hash)]
pub struct RawAsSegment {
    pub kind: u8,
    pub asn: u32,
    pub set: Vec<u32>,
}

/// A community as the data source stores it.
#[derive(Debug, Clone, Copy, PartialEq, Eq, Hash)]
pub struct RawCommunity {
    pub asn: u16,
    pub value: u16,
}

/// Index of the first end marker (`None`) at or after `from` in what a
/// cursor read, or the number of reads if it never met one.
pub open spec fn end_position_from<T>(reads: Seq<Option<T>>, from: int) -> int
    decreases reads.len() - from,
{
    if from < 0 || from >= reads.len() || reads[from] is None {
        from
    } else {
        end_position_from(reads, from + 1)
    }
}

/// Number of entries that a cursor read before its first end marker.
pub open spec fn end_position<T>(reads: Seq<Option<T>>) -> int {
    end_position_from(reads, 0)
}

/// The end of what a cursor read lies within the reads, every read before
/// it is an entry, and the read at it is an end marker unless there is none.
pub proof fn lemma_end_position<T>(reads: Seq<Option<T>>, from: int)
    requires
        0 <= from <= reads.len(),
    ensures
        from <= end_position_from(reads, from) <= reads.len(),
        forall|i: int| from <= i < end_position_from(reads, from) ==> reads[i] is Some,
        end_position_from(reads, from) < reads.len() ==> reads[end_position_from(
            reads,
            from,
        )] is None,
    decreases reads.len() - from,
{
    if from < reads.len() && reads[from] is Some {
        lemma_end_position(reads, from + 1);
    }
}

/// The segment that a raw segment stands for: a single number under the
/// tag `AS_PATH_SEG_ASN`, a set under every other tag.
pub open spec fn segment_of(raw: RawAsSegment) -> AsSegmentView {
    if raw.kind == AS_PATH_SEG_ASN {
        AsSegmentView::Num(raw.asn)
    } else {
        AsSegmentView::AsSet(raw.set@)
    }
}

/// The path that a sequence of segment reads stands for: the segments read
/// before the first end marker, in order.
pub open spec fn path_of(reads: Seq<Option<RawAsSegment>>) -> Seq<AsSegmentView> {
    Seq::new(end_position(reads) as nat, |i: int| segment_of(reads[i]->Some_0))
}

/// The communities that a sequence of reads stands for: the pairs read
/// before the first end marker, in order.
pub open spec fn communities_of(reads: Seq<Option<RawCommunity>>) -> Seq<(u16, u16)> {
    Seq::new(
        end_position(reads) as nat,
        |i: int| (reads[i]->Some_0.asn, reads[i]->Some_0.value),
    )
}

/// What a path holds, segment by segment.
pub open spec fn path_view(path: Seq<AsSegment>) -> Seq<AsSegmentView> {
    Seq::new(path.len(), |i: int| path[i]@)
}

/// Decodes one path segment. The members of a set keep the order in which
/// they were encoded.
pub fn parse_as_path_seg(seg: &RawAsSegment) -> (r: AsSegment)
    ensures
        r@ == segment_of(*seg),
{
    if seg.kind == AS_PATH_SEG_ASN {
        AsSegment::Num(seg.asn)
    } else {
        let mut list: Vec<u32> = Vec::new();
        let mut i: usize = 0;
        while i < seg.set.len()
            invariant
                0 <= i <= seg.set.len(),
                list@ == seg.set@.take(i as int),
            decreases seg.set.len() - i,
        {
            list.push(seg.set[i]);
            i += 1;
            assert(list@ == seg.set@.take(i as int));
        }
        assert(list@ == seg.set@);
        AsSegment::AsSet(list)
    }
}

/// Decodes an AS path from what the segment cursor of an element read:
/// every segment up to the first end marker, and nothing after it.
pub fn extract_as_path(reads: &Vec<Option<RawAsSegment>>) -> (path: Vec<AsSegment>)
    ensures
        path_view(path@) == path_of(reads@),
        path@.len() == end_position(reads@),
{
    let mut path: Vec<AsSegment> = Vec::new();
    let mut i: usize = 0;
    proof {
        lemma_end_position(reads@, 0);
    }
    loop
        invariant_except_break
            0 <= i <= reads.len(),
            path@.len() == i,
            end_position(reads@) == end_position_from(reads@, i as int),
            forall|j: int| 0 <= j < i ==> (#[trigger] path@[j])@ == segment_of(reads@[j]->Some_0),
        ensures
            path@.len() == end_position(reads@),
            forall|j: int|
                0 <= j < path@.len() ==> (#[trigger] path@[j])@ == segment_of(
                    reads@[j]->Some_0,
                ),
        decreases reads.len() - i,
    {
        if i >= reads.len() {
            break ;
        }
        match &reads[i] {
            None => {
                break ;
            },
            Some(seg) => {
                let decoded = parse_as_path_seg(seg);
                path.push(decoded);
            },
        }
        i += 1;
    }
    assert(path_view(path@) =~= path_of(reads@));
    path
}

/// Decodes the communities of an element from what was read at the indices
/// 0, 1, 2 and so on: every pair up to the first end marker, in order.
pub fn extract_communities(reads: &Vec<Option<RawCommunity>>) -> (communities: Vec<(u16, u16)>)
    ensures
        communities@ == communities_of(reads@),
{
    let mut communities: Vec<(u16, u16)> = Vec::new();
    let mut i: usize = 0;
    loop
        invariant_except_break
            0 <= i <= reads.len(),
            communities@.len() == i,
            end_position(reads@) == end_position_from(reads@, i as int),
            forall|j: int|
                0 <= j < i ==> #[trigger] communities@[j] == (
                    reads@[j]->Some_0.asn,
                    reads@[j]->Some_0.value,
                ),
        ensures
            communities@.len() == end_position(reads@),
            forall|j: int|
                0 <= j < communities@.len() ==> #[trigger] communities@[j] == (
                    reads@[j]->Some_0.asn,
                    reads@[j]->Some_0.value,
                ),
        decreases reads.len() - i,
    {
        if i >= reads.len() {
            break ;
        }
        match &reads[i] {
            None => {
                break ;
            },
            Some(community) => {
                communities.push((community.asn, community.value));
            },
        }
        i += 1;
    }
    assert(communities@ =~= communities_of(reads@));
    communities
}

/// Numbers written in decimal, with a separator between neighbours.
pub open spec fn joined(list: Seq<u32>, sep: Seq<char>) -> Seq<char>
    decreases list.len(),
{
    if list.len() == 0 {
        Seq::empty()
    } else if list.len() == 1 {
        decimal(list[0] as nat)
    } else {
        joined(list.drop_last(), sep) + sep + decimal(list.last() as nat)
    }
}

/// How an AS path segment is printed: a single number in decimal, a set as
/// its numbers between square brackets, separated by a comma and a space.
pub open spec fn segment_text(segment: AsSegmentView) -> Seq<char> {
    match segment {
        AsSegmentView::Num(asn) => decimal(asn as nat),
        AsSegmentView::AsSet(list) => "["@ + joined(list, ", "@) + "]"@,
    }
}

/// `itertools::Itertools::join` over the numbers of a list: each number as
/// `Display` prints it, that is in decimal, and the separator between every
/// two neighbours; the empty string for an empty list.
#[verifier::external_body]
fn join_numbers(list: &Vec<u32>, sep: &str) -> (s: String)
    ensures
        s@ == joined(list@, sep@),
{
    list.iter().join(sep)
}

impl AsSegment {
    /// Prints the segment: `64512` for a single number, `[64512, 64513]`
    /// for a set.
    pub fn to_string(&self) -> (s: String)
        ensures
            s@ == segment_text(self@),
    {
        match self {
            AsSegment::Num(asn) => decimal_string(*asn as u64),
            AsSegment::AsSet(list) => {
                let inner = join_numbers(list, ", ");
                "[".to_owned().concat(inner.as_str()).concat("]")
            },
        }
    }
}

/// Type tag of an element that is an entry of a RIB dump.
pub const ELEM_TYPE_RIB: u32 = 1;

/// Type tag of an element that announces a route.
pub const ELEM_TYPE_ANNOUNCEMENT: u32 = 2;

/// Type tag of an element that withdraws a route.
pub const ELEM_TYPE_WITHDRAWAL: u32 = 3;

/// Type tag of an element that reports a change of peer state.
pub const ELEM_TYPE_PEERSTATE: u32 = 4;

/// An element as the data source hands it out. Which fields carry meaning
/// depends on the type tag; the three optional attributes count only where
/// their flag is set.
#[derive(Debug, Clone, PartialEq, Eq)]
pub struct RawElement {
    pub kind: u32,
    pub orig_time_sec: i64,
    pub orig_time_usec: u32,
    pub peer_ip: RawAddress,
    pub peer_asn: u32,
    pub prefix: RawPrefix,
    pub nexthop: RawAddress,
    /// What the segment cursor of the path returns, read by read.
    pub as_path: Vec<Option<RawAsSegment>>,
    /// What the community list returns at the indices 0, 1, 2 and so on.
    pub communities: Vec<Option<RawCommunity>>,
    pub has_origin: bool,
    pub origin: u32,
    pub has_med: bool,
    pub med: u32,
    pub has_local_pref: bool,
    pub local_pref: u32,
    pub old_state: u32,
    pub new_state: u32,
}

/// The payload of an announcement or of a RIB entry.
#[derive(Debug, Clone)]
pub struct Update {
    pub prefix: IpPrefix,
    pub next_hop: IpAddress,
    pub as_path: Vec<AsSegment>,
    pub communities: Vec<(u16, u16)>,
    pub origin_type: Option<OriginType>,
    pub med: Option<u32>,
    pub local_pref: Option<u32>,
}

/// What an [`Update`] holds.
pub struct UpdateView {
    pub prefix: IpPrefix,
    pub next_hop: IpAddress,
    pub as_path: Seq<AsSegmentView>,
    pub communities: Seq<(u16, u16)>,
    pub origin_type: Option<OriginType>,
    pub med: Option<u32>,
    pub local_pref: Option<u32>,
}

impl View for Update {
    type V = UpdateView;

    open spec fn view(&self) -> UpdateView {
        UpdateView {
            prefix: self.prefix,
            next_hop: self.next_hop,
            as_path: path_view(self.as_path@),
            communities: self.communities@,
            origin_type: self.origin_type,
            med: self.med,
            local_pref: self.local_pref,
        }
    }
}

/// The kinds of routing event.
#[derive(Debug, Clone)]
pub enum ElementType {
    /// An entry of a table dump.
    RIB(Update),
    /// A route announced by an incremental update.
    Announcement(Update),
    /// A route withdrawn by an incremental update.
    Withdrawal(IpPrefix),
    /// A transition of the session with the peer.
    PeerState { from: PeerState, to: PeerState },
}

/// What an [`ElementType`] holds.
pub enum ElementTypeView {
    RIB(UpdateView),
    Announcement(UpdateView),
    Withdrawal(IpPrefix),
    PeerState { from: PeerState, to: PeerState },
}

impl View for ElementType {
    type V = ElementTypeView;

    open spec fn view(&self) -> ElementTypeView {
        match *self {
            ElementType::RIB(u) => ElementTypeView::RIB(u@),
            ElementType::Announcement(u) => ElementTypeView::Announcement(u@),
            ElementType::Withdrawal(p) => ElementTypeView::Withdrawal(p),
            ElementType::PeerState { from, to } => ElementTypeView::PeerState { from, to },
        }
    }
}

/// One routing event, owned and complete: nothing in it points back to the
/// record it was decoded from.
#[derive(Debug, Clone)]
pub struct Element {
    pub time: Timestamp,
    pub peer_ip: IpAddress,
    pub peer_asn: u32,
    pub e: ElementType,
}

/// What an [`Element`] holds.
pub struct ElementView {
    pub time: Timestamp,
    pub peer_ip: IpAddress,
    pub peer_asn: u32,
    pub e: ElementTypeView,
}

impl View for Element {
    type V = ElementView;

    open spec fn view(&self) -> ElementView {
        ElementView {
            time: self.time,
            peer_ip: self.peer_ip,
            peer_asn: self.peer_asn,
            e: self.e@,
        }
    }
}

/// An optional attribute is present exactly when its flag is set; the raw
/// value behind a cleared flag never shows.
pub open spec fn optional_of(has_value: bool, value: u32) -> Option<u32> {
    if has_value {
        Some(value)
    } else {
        None
    }
}

/// The origin of an element: absent without the flag, else the decoded code.
pub open spec fn origin_of(has_value: bool, value: u32) -> Result<
    Option<OriginType>,
    BgpStreamError,
> {
    if has_value {
        match OriginType::spec_try_from(value) {
            Ok(origin) => Ok(Some(origin)),
            Err(e) => Err(e),
        }
    } else {
        Ok(None)
    }
}

/// The time of an element: its own origin time where that is set, else the
/// time of the record it belongs to.
pub open spec fn element_time_of(raw: RawElement, record_time: Timestamp) -> Result<
    Timestamp,
    BgpStreamError,
> {
    if raw.orig_time_sec == 0 {
        Ok(record_time)
    } else {
        Timestamp::spec_from_unix(raw.orig_time_sec as int, raw.orig_time_usec as int)
    }
}

/// The update that the payload fields of an element stand for. The prefix
/// is decoded first, then the next hop, then the origin; the first failure
/// is the result.
pub open spec fn update_of(raw: RawElement) -> Result<UpdateView, BgpStreamError> {
    match prefix_of(raw.prefix) {
        Err(e) => Err(e),
        Ok(prefix) => match address_of(raw.nexthop) {
            Err(e) => Err(e),
            Ok(next_hop) => match origin_of(raw.has_origin, raw.origin) {
                Err(e) => Err(e),
                Ok(origin_type) => Ok(
                    UpdateView {
                        prefix,
                        next_hop,
                        as_path: path_of(raw.as_path@),
                        communities: communities_of(raw.communities@),
                        origin_type,
                        med: optional_of(raw.has_med, raw.med),
                        local_pref: optional_of(raw.has_local_pref, raw.local_pref),
                    },
                ),
            },
        },
    }
}

/// The peer state change that the state fields of an element stand for.
pub open spec fn peer_state_change_of(raw: RawElement) -> Result<ElementTypeView, BgpStreamError> {
    match PeerState::spec_try_from(raw.old_state) {
        Err(e) => Err(e),
        Ok(from) => match PeerState::spec_try_from(raw.new_state) {
            Err(e) => Err(e),
            Ok(to) => Ok(ElementTypeView::PeerState { from, to }),
        },
    }
}

/// The event that an element stands for, chosen by its type tag.
pub open spec fn payload_of(raw: RawElement) -> Result<ElementTypeView, BgpStreamError> {
    if raw.kind == ELEM_TYPE_ANNOUNCEMENT {
        match update_of(raw) {
            Ok(u) => Ok(ElementTypeView::Announcement(u)),
            Err(e) => Err(e),
        }
    } else if raw.kind == ELEM_TYPE_RIB {
        match update_of(raw) {
            Ok(u) => Ok(ElementTypeView::RIB(u)),
            Err(e) => Err(e),
        }
    } else if raw.kind == ELEM_TYPE_PEERSTATE {
        peer_state_change_of(raw)
    } else if raw.kind == ELEM_TYPE_WITHDRAWAL {
        match prefix_of(raw.prefix) {
            Ok(p) => Ok(ElementTypeView::Withdrawal(p)),
            Err(e) => Err(e),
        }
    } else {
        Err(BgpStreamError::UnknownElementType)
    }
}

/// The element that a raw element stands for within a record of the given
/// time. The time is resolved first, then the peer address, then the
/// payload; the first failure is the result.
pub open spec fn element_of(raw: RawElement, record_time: Timestamp) -> Result<
    ElementView,
    BgpStreamError,
> {
    match element_time_of(raw, record_time) {
        Err(e) => Err(e),
        Ok(time) => match address_of(raw.peer_ip) {
            Err(e) => Err(e),
            Ok(peer_ip) => match payload_of(raw) {
                Err(e) => Err(e),
                Ok(e) => Ok(ElementView { time, peer_ip, peer_asn: raw.peer_asn, e }),
            },
        },
    }
}

/// The optional attributes of an update follow their flags alone: behind a
/// cleared flag the attribute is absent whatever the raw value is, and
/// behind a set flag the MED and the local preference are the raw values.
pub proof fn lemma_optional_fields_follow_flags(raw: RawElement)
    requires
        update_of(raw) is Ok,
    ensures
        !raw.has_med ==> update_of(raw)->Ok_0.med is None,
        raw.has_med ==> update_of(raw)->Ok_0.med == Some(raw.med),
        !raw.has_local_pref ==> update_of(raw)->Ok_0.local_pref is None,
        raw.has_local_pref ==> update_of(raw)->Ok_0.local_pref == Some(raw.local_pref),
        !raw.has_origin ==> update_of(raw)->Ok_0.origin_type is None,
        raw.has_origin ==> OriginType::spec_try_from(raw.origin) == Ok::<
            OriginType,
            BgpStreamError,
        >(update_of(raw)->Ok_0.origin_type->Some_0),
{
}

/// Whether a decoding step returned what its model prescribes.
pub open spec fn decoded_as<T: View>(r: Result<T, BgpStreamError>, model: Result<
    T::V,
    BgpStreamError,
>) -> bool {
    match r {
        Ok(value) => model == Ok::<T::V, BgpStreamError>(value@),
        Err(e) => model == Err::<T::V, BgpStreamError>(e),
    }
}

/// Decodes an optional attribute from its flag and its raw value.
pub fn decode_optional(has_value: bool, value: u32) -> (r: Option<u32>)
    ensures
        r == optional_of(has_value, value),
        !has_value ==> r is None,
        has_value ==> r == Some(value),
{
    if has_value {
        Some(value)
    } else {
        None
    }
}

/// Decodes the optional origin of a route.
pub fn decode_origin(has_value: bool, value: u32) -> (r: Result<Option<OriginType>, BgpStreamError>)
    ensures
        r == origin_of(has_value, value),
{
    if has_value {
        match OriginType::try_from(value) {
            Ok(origin) => Ok(Some(origin)),
            Err(e) => Err(e),
        }
    } else {
        Ok(None)
    }
}

impl Update {
    /// Decodes the payload of an announcement or of a RIB entry.
    pub fn decode(raw: &RawElement) -> (r: Result<Update, BgpStreamError>)
        ensures
            decoded_as(r, update_of(*raw)),
            r is Ok ==> r->Ok_0.prefix.wf(),
    {
        let prefix = match parse_bgpstream_prefix(&raw.prefix) {
            Ok(prefix) => prefix,
            Err(e) => { return Err(e); },
        };
        let next_hop = match parse_bgpstream_ip(&raw.nexthop) {
            Ok(next_hop) => next_hop,
            Err(e) => { return Err(e); },
        };
        let as_path = extract_as_path(&raw.as_path);
        let communities = extract_communities(&raw.communities);
        let origin_type = match decode_origin(raw.has_origin, raw.origin) {
            Ok(origin_type) => origin_type,
            Err(e) => { return Err(e); },
        };
        Ok(
            Update {
                prefix,
                next_hop,
                as_path,
                communities,
                origin_type,
                med: decode_optional(raw.has_med, raw.med),
                local_pref: decode_optional(raw.has_local_pref, raw.local_pref),
            },
        )
    }
}

impl Element {
    /// Decodes one element pulled from a record of the given time.
    ///
    /// The element keeps its own origin time where that is set and takes
    /// the time of the record otherwise. Announcements and RIB entries
    /// carry a full update, withdrawals only the prefix, peer state changes
    /// the two states; any other type tag is `UnknownElementType`.
    pub fn decode(raw: &RawElement, record_time: Timestamp) -> (r: Result<Element, BgpStreamError>)
        ensures
            decoded_as(r, element_of(*raw, record_time)),
    {
        let time = if raw.orig_time_sec == 0 {
            record_time
        } else {
            match Timestamp::from_unix_timestamp(raw.orig_time_sec, raw.orig_time_usec) {
                Ok(time) => time,
                Err(e) => { return Err(e); },
            }
        };
        let peer_ip = match parse_bgpstream_ip(&raw.peer_ip) {
            Ok(peer_ip) => peer_ip,
            Err(e) => { return Err(e); },
        };
        let e = if raw.kind == ELEM_TYPE_ANNOUNCEMENT {
            match Update::decode(raw) {
                Ok(update) => ElementType::Announcement(update),
                Err(e) => { return Err(e); },
            }
        } else if raw.kind == ELEM_TYPE_RIB {
            match Update::decode(raw) {
                Ok(update) => ElementType::RIB(update),
                Err(e) => { return Err(e); },
            }
        } else if raw.kind == ELEM_TYPE_PEERSTATE {
            let from = match PeerState::try_from(raw.old_state) {
                Ok(from) => from,
                Err(e) => { return Err(e); },
            };
            let to = match PeerState::try_from(raw.new_state) {
                Ok(to) => to,
                Err(e) => { return Err(e); },
            };
            ElementType::PeerState { from, to }
        } else if raw.kind == ELEM_TYPE_WITHDRAWAL {
            match parse_bgpstream_prefix(&raw.prefix) {
                Ok(prefix) => ElementType::Withdrawal(prefix),
                Err(e) => { return Err(e); },
            }
        } else {
            return Err(BgpStreamError::UnknownElementType);
        };
        Ok(Element { time, peer_ip, peer_asn: raw.peer_asn, e })
    }

    /// The prefix that the element speaks of; a peer state change has none.
    pub fn prefix(&self) -> (p: Option<IpPrefix>)
        ensures
            p == match self@.e {
                ElementTypeView::RIB(u) => Some(u.prefix),
                ElementTypeView::Announcement(u) => Some(u.prefix),
                ElementTypeView::Withdrawal(prefix) => Some(prefix),
                ElementTypeView::PeerState { .. } => None,
            },
    {
        match &self.e {
            ElementType::RIB(u) => Some(u.prefix),
            ElementType::Announcement(u) => Some(u.prefix),
            ElementType::Withdrawal(p) => Some(*p),
            ElementType::PeerState { .. } => None,
        }
    }
}

/// Return code with which the data source hands out an element.
pub const ELEMENT_PULLED: i32 = 1;

/// Return code with which the data source reports that a record has no
/// further element.
pub const ELEMENT_NONE: i32 = 0;

/// What the data source answered when asked for the next element of a
/// record: its return code and the element it handed out, if any.
#[derive(Debug, Clone, PartialEq, Eq)]
pub struct ElementPull {
    pub code: i32,
    pub element: Option<RawElement>,
}

/// What a pull yields within a record of the given time: an element, the
/// end of the record (`None`), or an error. Any code other than the two
/// known ones is `GetNextElement`; a pull that reports an element and hands
/// out none is `GetNextElementNull`.
pub open spec fn pulled_element_of(pull: ElementPull, record_time: Timestamp) -> Result<
    Option<ElementView>,
    BgpStreamError,
> {
    if pull.code == ELEMENT_NONE {
        Ok(None)
    } else if pull.code != ELEMENT_PULLED {
        Err(BgpStreamError::GetNextElement)
    } else {
        match pull.element {
            None => Err(BgpStreamError::GetNextElementNull),
            Some(raw) => match element_of(raw, record_time) {
                Ok(element) => Ok(Some(element)),
                Err(e) => Err(e),
            },
        }
    }
}

/// Whether the answer to a pull is what its model prescribes.
pub open spec fn pulled_as(r: Result<Option<Element>, BgpStreamError>, model: Result<
    Option<ElementView>,
    BgpStreamError,
>) -> bool {
    match r {
        Ok(Some(element)) => model == Ok::<Option<ElementView>, BgpStreamError>(Some(element@)),
        Ok(None) => model == Ok::<Option<ElementView>, BgpStreamError>(None),
        Err(e) => model == Err::<Option<ElementView>, BgpStreamError>(e),
    }
}

impl Element {
    /// Turns the answer to a pull into the next element of a record, into
    /// `None` where the record is exhausted, or into the error that the
    /// pull or the decoding met.
    pub fn new(record: &Record, pull: &ElementPull) -> (r: Result<Option<Element>, BgpStreamError>)
        ensures
            pulled_as(r, pulled_element_of(*pull, record.time)),
    {
        if pull.code == ELEMENT_NONE {
            return Ok(None);
        }
        if pull.code != ELEMENT_PULLED {
            return Err(BgpStreamError::GetNextElement);
        }
        match &pull.element {
            None => Err(BgpStreamError::GetNextElementNull),
            Some(raw) => match Element::decode(raw, record.time) {
                Ok(element) => Ok(Some(element)),
                Err(e) => Err(e),
            },
        }
    }
}

} // verus!
