use bgpstream::query::{DataInterfaceOption, Filter, FilterKind};
use bgpstream::stream::{
    Collector, ElementTypeDescr, FilterInterval, IpVersion, PrefixMatchType, Project, Query,
    RecordType, RipeNcc, RouteView, TimeUnit,
};
use bgpstream::timestamp::Timestamp;
use bgpstream::BgpStreamError;

fn filter(kind: FilterKind, value: &str) -> Filter {
    Filter { kind, value: value.to_string() }
}

#[test]
fn a_new_query_is_empty() {
    let q = Query::new();
    assert!(q.filters().is_empty());
    assert!(q.data_interface_options().is_empty());
    assert_eq!(q.time_interval(), FilterInterval::Open);
    assert_eq!(q.rib_period_seconds(), None);
    assert_eq!(FilterInterval::default(), FilterInterval::Open);
    assert!(Query::default().filters().is_empty());
}

#[test]
fn filters_are_kept_in_the_order_of_the_calls() {
    let mut q = Query::new();
    q.record_type(RecordType::Updates)
        .collector(Collector::RouteView(RouteView::Amsix))
        .project(Project::RIS)
        .ip_version(IpVersion::IPv6)
        .event_type(ElementTypeDescr::Withdrawals);
    q.collector_name("rrc00").unwrap().as_path("^681_1444_").unwrap();
    q.community("65000:*").unwrap().origin_asn("64512").unwrap();
    q.peer_asn("64513").unwrap().not_peer_asn("64514").unwrap();
    q.prefix(PrefixMatchType::More, "192.0.2.0/24").unwrap();
    assert_eq!(
        q.filters(),
        &vec![
            filter(FilterKind::RecordType, "updates"),
            filter(FilterKind::Collector, "route-views.amsix"),
            filter(FilterKind::Project, "ris"),
            filter(FilterKind::IpVersion, "6"),
            filter(FilterKind::ElemType, "withdrawals"),
            filter(FilterKind::Collector, "rrc00"),
            filter(FilterKind::AsPath, "^681_1444_"),
            filter(FilterKind::Community, "65000:*"),
            filter(FilterKind::OriginAsn, "64512"),
            filter(FilterKind::PeerAsn, "64513"),
            filter(FilterKind::NotPeerAsn, "64514"),
            filter(FilterKind::PrefixMore, "192.0.2.0/24"),
        ]
    );
}

#[test]
fn values_of_the_closed_choices() {
    let mut q = Query::new();
    q.record_type(RecordType::RIBs)
        .project(Project::RouteViews)
        .ip_version(IpVersion::IPv4)
        .event_type(ElementTypeDescr::RIBs)
        .event_type(ElementTypeDescr::Announcements)
        .event_type(ElementTypeDescr::PeerStates)
        .collector(Collector::RipeNcc(RipeNcc::Dubai));
    let values: Vec<&str> = q.filters().iter().map(|f| f.value.as_str()).collect();
    assert_eq!(
        values,
        vec!["ribs", "routeviews", "4", "ribs", "announcements", "peerstates", "rrc26"]
    );
}

#[test]
fn prefix_match_types_choose_the_filter_kind() {
    let mut q = Query::new();
    q.prefix(PrefixMatchType::Any, "a").unwrap();
    q.prefix(PrefixMatchType::Exact, "b").unwrap();
    q.prefix(PrefixMatchType::Less, "c").unwrap();
    q.prefix(PrefixMatchType::More, "d").unwrap();
    let kinds: Vec<FilterKind> = q.filters().iter().map(|f| f.kind).collect();
    assert_eq!(
        kinds,
        vec![
            FilterKind::PrefixAny,
            FilterKind::PrefixExact,
            FilterKind::PrefixLess,
            FilterKind::PrefixMore
        ]
    );
}

#[test]
fn a_string_with_nul_is_refused_and_changes_nothing() {
    let mut q = Query::new();
    q.collector_name("rrc00").unwrap();
    assert_eq!(q.collector_name("rrc\0").err(), Some(BgpStreamError::StringContainsNull));
    assert_eq!(q.as_path("\0").err(), Some(BgpStreamError::StringContainsNull));
    assert_eq!(q.community("a\0b").err(), Some(BgpStreamError::StringContainsNull));
    assert_eq!(q.origin_asn("1\0").err(), Some(BgpStreamError::StringContainsNull));
    assert_eq!(q.peer_asn("\01").err(), Some(BgpStreamError::StringContainsNull));
    assert_eq!(q.not_peer_asn("1\02").err(), Some(BgpStreamError::StringContainsNull));
    assert_eq!(
        q.prefix(PrefixMatchType::Any, "10.0.0.0/8\0").err(),
        Some(BgpStreamError::StringContainsNull)
    );
    assert_eq!(
        q.add_filter(FilterKind::Project, "ris\0").err(),
        Some(BgpStreamError::StringContainsNull)
    );
    assert_eq!(q.cache("/tmp\0/cache").err(), Some(BgpStreamError::StringContainsNull));
    assert_eq!(
        q.set_data_interface_option("bro\0ker", "cache-dir", "/tmp"),
        Err(BgpStreamError::StringContainsNull)
    );
    assert_eq!(
        q.set_data_interface_option("broker", "cache\0dir", "/tmp"),
        Err(BgpStreamError::StringContainsNull)
    );
    assert_eq!(
        q.set_data_interface_option("broker", "cache-dir", "\0"),
        Err(BgpStreamError::StringContainsNull)
    );
    assert_eq!(q.filters(), &vec![filter(FilterKind::Collector, "rrc00")]);
    assert!(q.data_interface_options().is_empty());
}

#[test]
fn cache_sets_the_cache_directory_of_the_broker() {
    let mut q = Query::new();
    q.cache("/tmp/bgpstream_cache").unwrap();
    q.set_data_interface_option("singlefile", "rib-file", "dump.gz").unwrap();
    assert_eq!(
        q.data_interface_options(),
        &vec![
            DataInterfaceOption {
                interface: "broker".to_string(),
                option: "cache-dir".to_string(),
                value: "/tmp/bgpstream_cache".to_string(),
            },
            DataInterfaceOption {
                interface: "singlefile".to_string(),
                option: "rib-file".to_string(),
                value: "dump.gz".to_string(),
            },
        ]
    );
}

#[test]
fn interval_and_rib_period_replace_what_was_set() {
    let mut q = Query::new();
    let start = Timestamp { seconds: 1_699_437_300, microseconds: 0 };
    let first = FilterInterval::Interval { start, stop: None };
    let second = FilterInterval::Since { amount: 1, unit: TimeUnit::Hours, live: false };
    q.interval(first).rib_period(3600);
    assert_eq!(q.time_interval(), first);
    assert_eq!(q.rib_period_seconds(), Some(3600));
    q.interval(second).rib_period(7200);
    assert_eq!(q.time_interval(), second);
    assert_eq!(q.rib_period_seconds(), Some(7200));
    assert!(q.filters().is_empty());
}

#[test]
fn unit_letters() {
    assert_eq!(TimeUnit::Seconds.to_string(), "s");
    assert_eq!(TimeUnit::Minutes.to_string(), "m");
    assert_eq!(TimeUnit::Hours.to_string(), "h");
    assert_eq!(TimeUnit::Days.to_string(), "d");
    assert_eq!(TimeUnit::Days.letter(), "d");
}

#[test]
fn two_filters_of_one_kind_are_alternatives() {
    let mut q = Query::new();
    q.project(Project::RouteViews).project(Project::RIS);
    assert!(!q.matches(&vec![false, false]));
    assert!(q.matches(&vec![true, false]));
    assert!(q.matches(&vec![false, true]));
    assert!(q.matches(&vec![true, true]));
}

#[test]
fn two_filters_of_different_kinds_are_both_demands() {
    let mut q = Query::new();
    q.project(Project::RouteViews).record_type(RecordType::Updates);
    assert!(!q.matches(&vec![false, false]));
    assert!(!q.matches(&vec![true, false]));
    assert!(!q.matches(&vec![false, true]));
    assert!(q.matches(&vec![true, true]));
}

#[test]
fn kinds_are_demands_and_their_filters_alternatives() {
    let mut q = Query::new();
    q.project(Project::RouteViews).record_type(RecordType::Updates).project(Project::RIS);
    assert!(q.matches(&vec![false, true, true]));
    assert!(q.matches(&vec![true, true, false]));
    assert!(!q.matches(&vec![true, false, true]));
    assert!(!q.matches(&vec![false, true, false]));
}

#[test]
fn a_filter_without_an_answer_is_not_met() {
    let mut q = Query::new();
    assert!(q.matches(&Vec::new()));
    assert!(q.matches(&vec![false]));
    q.project(Project::RIS);
    assert!(!q.matches(&Vec::new()));
    q.project(Project::RouteViews);
    assert!(q.matches(&vec![true]));
    assert!(!q.matches(&vec![false]));
    assert!(q.matches(&vec![false, true, false]));
}
