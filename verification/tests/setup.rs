use bgpstream::query::FilterKind;
use bgpstream::setup::{interval_seconds, recent_interval_descriptor, SetupAction, NO_UPPER_BOUND};
use bgpstream::stream::{
    BgpStream, Collector, Demand, FilterInterval, Project, Query, RecordType, RouteView, TimeUnit,
};
use bgpstream::timestamp::Timestamp;
use bgpstream::BgpStreamError;

fn add_filter(kind: FilterKind, value: &str) -> SetupAction {
    SetupAction::AddFilter { kind, value: value.to_string() }
}

fn at(seconds: i64) -> Timestamp {
    Timestamp { seconds, microseconds: 0 }
}

fn full_query() -> Query {
    let mut q = Query::new();
    q.project(Project::RouteViews).record_type(RecordType::Updates);
    q.interval(FilterInterval::Interval { start: at(1_699_437_300), stop: Some(at(1_699_440_900)) });
    q.rib_period(7200);
    q.cache("/tmp/bgpstream_cache").unwrap();
    q
}

fn full_plan() -> Vec<SetupAction> {
    vec![
        SetupAction::Create,
        add_filter(FilterKind::Project, "routeviews"),
        add_filter(FilterKind::RecordType, "updates"),
        SetupAction::AddInterval { start: 1_699_437_300, stop: 1_699_440_900 },
        SetupAction::AddRibPeriod { seconds: 7200 },
        SetupAction::ResolveInterface { name: "broker".to_string() },
        SetupAction::ResolveOption { name: "cache-dir".to_string() },
        SetupAction::SetOption { value: "/tmp/bgpstream_cache".to_string() },
        SetupAction::Start,
    ]
}

#[test]
fn the_plan_of_an_empty_query_creates_and_starts() {
    assert_eq!(Query::new().plan(), vec![SetupAction::Create, SetupAction::Start]);
}

#[test]
fn the_plan_follows_the_order_of_opening() {
    assert_eq!(full_query().plan(), full_plan());
}

#[test]
fn filters_are_applied_in_the_order_in_which_they_were_added() {
    let mut q = Query::new();
    q.project(Project::RIS)
        .project(Project::RouteViews)
        .collector(Collector::RouteView(RouteView::View2));
    assert_eq!(
        q.plan(),
        vec![
            SetupAction::Create,
            add_filter(FilterKind::Project, "ris"),
            add_filter(FilterKind::Project, "routeviews"),
            add_filter(FilterKind::Collector, "route-views2"),
            SetupAction::Start,
        ]
    );
}

#[test]
fn an_interval_without_end_has_no_upper_bound() {
    let mut q = Query::new();
    q.interval(FilterInterval::Interval { start: at(1_699_437_300), stop: None });
    assert_eq!(NO_UPPER_BOUND, 0);
    assert_eq!(
        q.plan(),
        vec![
            SetupAction::Create,
            SetupAction::AddInterval { start: 1_699_437_300, stop: 0 },
            SetupAction::Start,
        ]
    );
}

#[test]
fn a_relative_interval_is_described_by_amount_and_unit() {
    let mut q = Query::new();
    q.interval(FilterInterval::Since { amount: 1, unit: TimeUnit::Hours, live: false });
    assert_eq!(
        q.plan(),
        vec![
            SetupAction::Create,
            SetupAction::AddRecentInterval { descriptor: "1 h".to_string(), live: false },
            SetupAction::Start,
        ]
    );
    assert_eq!(recent_interval_descriptor(90, TimeUnit::Minutes), "90 m");
    assert_eq!(recent_interval_descriptor(0, TimeUnit::Seconds), "0 s");
    assert_eq!(recent_interval_descriptor(1234567, TimeUnit::Days), "1234567 d");
    q.interval(FilterInterval::Since { amount: 7, unit: TimeUnit::Days, live: true });
    assert_eq!(
        q.plan()[1],
        SetupAction::AddRecentInterval { descriptor: "7 d".to_string(), live: true }
    );
}

#[test]
fn interval_bounds_are_the_low_32_bits_of_the_seconds() {
    assert_eq!(interval_seconds(&at(0)), 0);
    assert_eq!(interval_seconds(&at(1_699_437_300)), 1_699_437_300);
    assert_eq!(interval_seconds(&at(4_294_967_295)), u32::MAX);
    assert_eq!(interval_seconds(&at(4_294_967_296)), 0);
    assert_eq!(interval_seconds(&at(4_294_967_296 + 5)), 5);
    assert_eq!(interval_seconds(&at(-1)), u32::MAX);
}

#[test]
fn every_option_takes_three_actions() {
    let mut q = Query::new();
    q.set_data_interface_option("a", "b", "c").unwrap();
    q.set_data_interface_option("d", "e", "f").unwrap();
    assert_eq!(
        q.plan(),
        vec![
            SetupAction::Create,
            SetupAction::ResolveInterface { name: "a".to_string() },
            SetupAction::ResolveOption { name: "b".to_string() },
            SetupAction::SetOption { value: "c".to_string() },
            SetupAction::ResolveInterface { name: "d".to_string() },
            SetupAction::ResolveOption { name: "e".to_string() },
            SetupAction::SetOption { value: "f".to_string() },
            SetupAction::Start,
        ]
    );
}

#[test]
fn the_stream_starts_when_every_action_is_accepted() {
    let q = full_query();
    let stream: BgpStream = q.run(&vec![true; 9]).unwrap();
    assert_eq!(stream.demand(), Demand::Record);
    assert!(stream.current_record.is_none());
    assert!(!stream.finished);
    assert!(q.run(&vec![true; 12]).is_ok());
}

#[test]
fn the_first_refusal_decides_the_error() {
    let q = full_query();
    let errors = [
        BgpStreamError::Create,
        BgpStreamError::AddFilter,
        BgpStreamError::AddFilter,
        BgpStreamError::AddInterval,
        BgpStreamError::AddRibPeriod,
        BgpStreamError::InterfaceNotFound("broker".to_string()),
        BgpStreamError::InterfaceOptionNotFound("cache-dir".to_string()),
        BgpStreamError::SetInterfaceOption,
        BgpStreamError::Start,
    ];
    for (refused, error) in errors.iter().enumerate() {
        let mut answers = vec![true; 9];
        answers[refused] = false;
        assert_eq!(q.run(&answers).err(), Some(error.clone()));
        for later in refused..9 {
            answers[later] = false;
        }
        assert_eq!(q.run(&answers).err(), Some(error.clone()));
        answers.truncate(refused + 1);
        assert_eq!(q.run(&answers).err(), Some(error.clone()));
    }
}

#[test]
fn an_action_without_an_answer_was_not_accepted() {
    let q = full_query();
    assert_eq!(q.run(&Vec::new()).err(), Some(BgpStreamError::Create));
    assert_eq!(q.run(&vec![true; 3]).err(), Some(BgpStreamError::AddInterval));
    assert_eq!(q.run(&vec![true; 8]).err(), Some(BgpStreamError::Start));
}

#[test]
fn a_refused_relative_interval() {
    let mut q = Query::new();
    q.interval(FilterInterval::Since { amount: 1, unit: TimeUnit::Hours, live: false });
    assert_eq!(q.run(&vec![true, false, true]).err(), Some(BgpStreamError::AddRecentInterval));
}

#[test]
fn failures_of_the_actions() {
    assert_eq!(SetupAction::Create.failure(), BgpStreamError::Create);
    assert_eq!(SetupAction::Start.failure(), BgpStreamError::Start);
    assert_eq!(add_filter(FilterKind::AsPath, "x").failure(), BgpStreamError::AddFilter);
    assert_eq!(
        SetupAction::ResolveInterface { name: "kafka".to_string() }.failure(),
        BgpStreamError::InterfaceNotFound("kafka".to_string())
    );
    assert_eq!(
        SetupAction::ResolveOption { name: "topic".to_string() }.failure(),
        BgpStreamError::InterfaceOptionNotFound("topic".to_string())
    );
    assert_eq!(
        SetupAction::SetOption { value: "v".to_string() }.failure(),
        BgpStreamError::SetInterfaceOption
    );
}
