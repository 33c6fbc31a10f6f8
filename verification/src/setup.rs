//! Opening a stream: the actions that a query asks of the data source, in
//! order, and what becomes of the stream when one of them is refused.

use vstd::prelude::*;
use vstd::string::StringExecFns;

use crate::error::BgpStreamError;
use crate::query::{FilterInterval, FilterKind, Query, QueryView};
use crate::stream::BgpStream;
use crate::text::{decimal, decimal_string, has_nul};
use crate::timestamp::Timestamp;

verus! {

/// The upper bound that stands for "no upper bound" in an absolute
/// interval: the stream is then live.
pub const NO_UPPER_BOUND: u32 = 0;

/// One thing that opening a stream asks of the data source. The data
/// source accepts or refuses each; a refusal ends the opening.
#[derive(Debug, Clone, PartialEq, Eq)]
pub enum SetupAction {
    /// Allocate the stream handle.
    Create,
    /// Add a filter.
    AddFilter { kind: FilterKind, value: String },
    /// Restrict the stream to an absolute interval, in epoch seconds.
    AddInterval { start: u32, stop: u32 },
    /// Restrict the stream to an interval that reaches back from now, as
    /// in `1 h`.
    AddRecentInterval { descriptor: String, live: bool },
    /// Set the least time between two RIBs of one collector.
    AddRibPeriod { seconds: u32 },
    /// Find a data interface by name.
    ResolveInterface { name: String },
    /// Find an option by name in the data interface found last.
    ResolveOption { name: String },
    /// Give a value to the option found last.
    SetOption { value: String },
    /// Start the stream.
    Start,
}

/// What a [`SetupAction`] holds.
pub enum SetupActionView {
    Create,
    AddFilter { kind: FilterKind, value: Seq<char> },
    AddInterval { start: u32, stop: u32 },
    AddRecentInterval { descriptor: Seq<char>, live: bool },
    AddRibPeriod { seconds: u32 },
    ResolveInterface { name: Seq<char> },
    ResolveOption { name: Seq<char> },
    SetOption { value: Seq<char> },
    Start,
}

impl View for SetupAction {
    type V = SetupActionView;

    open spec fn view(&self) -> SetupActionView {
        match *self {
            SetupAction::Create => SetupActionView::Create,
            SetupAction::AddFilter { kind, value } => SetupActionView::AddFilter {
                kind,
                value: value@,
            },
            SetupAction::AddInterval { start, stop } => SetupActionView::AddInterval {
                start,
                stop,
            },
            SetupAction::AddRecentInterval { descriptor, live } => {
                SetupActionView::AddRecentInterval { descriptor: descriptor@, live }
            },
            SetupAction::AddRibPeriod { seconds } => SetupActionView::AddRibPeriod { seconds },
            SetupAction::ResolveInterface { name } => SetupActionView::ResolveInterface {
                name: name@,
            },
            SetupAction::ResolveOption { name } => SetupActionView::ResolveOption { name: name@ },
            SetupAction::SetOption { value } => SetupActionView::SetOption { value: value@ },
            SetupAction::Start => SetupActionView::Start,
        }
    }
}

/// What a list of actions holds, action by action.
pub open spec fn actions_view(actions: Seq<SetupAction>) -> Seq<SetupActionView> {
    Seq::new(actions.len(), |i: int| actions[i]@)
}

/// The epoch seconds of an instant as the data source takes them: their
/// low 32 bits.
pub open spec fn interval_bound(t: Timestamp) -> u32 {
    t.seconds as u32
}

/// The actions that add the filters of a query, in the order of the
/// filters.
pub open spec fn filter_actions(filters: Seq<(FilterKind, Seq<char>)>) -> Seq<SetupActionView> {
    Seq::new(
        filters.len(),
        |i: int| SetupActionView::AddFilter { kind: filters[i].0, value: filters[i].1 },
    )
}

/// The action, if any, that applies the interval of a query. An open
/// interval applies nothing. An absolute interval without an end has
/// `NO_UPPER_BOUND` in its place. A relative interval is described by its
/// amount in decimal, a space and the letter of its unit.
pub open spec fn interval_actions(interval: FilterInterval) -> Seq<SetupActionView> {
    match interval {
        FilterInterval::Open => Seq::empty(),
        FilterInterval::Interval { start, stop } => seq![
            SetupActionView::AddInterval {
                start: interval_bound(start),
                stop: match stop {
                    Some(t) => interval_bound(t),
                    None => NO_UPPER_BOUND,
                },
            },
        ],
        FilterInterval::Since { amount, unit, live } => seq![
            SetupActionView::AddRecentInterval {
                descriptor: decimal(amount as nat) + " "@ + unit.spec_letter(),
                live,
            },
        ],
    }
}

/// The action, if any, that applies the RIB period of a query.
pub open spec fn rib_period_actions(rib_period: Option<u32>) -> Seq<SetupActionView> {
    match rib_period {
        Some(seconds) => seq![SetupActionView::AddRibPeriod { seconds }],
        None => Seq::empty(),
    }
}

/// The three actions that set one data interface option.
pub open spec fn option_action(option: (Seq<char>, Seq<char>, Seq<char>), step: int)
    -> SetupActionView {
    if step == 0 {
        SetupActionView::ResolveInterface { name: option.0 }
    } else if step == 1 {
        SetupActionView::ResolveOption { name: option.1 }
    } else {
        SetupActionView::SetOption { value: option.2 }
    }
}

/// The actions that set the data interface options of a query: for each
/// option in turn, find the interface, find the option, set the value.
pub open spec fn option_actions(options: Seq<(Seq<char>, Seq<char>, Seq<char>)>) -> Seq<
    SetupActionView,
> {
    Seq::new(3 * options.len(), |i: int| option_action(options[i / 3], i % 3))
}

/// Everything that opening a stream for a query asks of the data source,
/// in order: create the handle, add the filters, apply the interval, apply
/// the RIB period, set the options, start.
pub open spec fn plan_of(q: QueryView) -> Seq<SetupActionView> {
    seq![SetupActionView::Create] + filter_actions(q.filters) + interval_actions(q.interval)
        + rib_period_actions(q.rib_period) + option_actions(q.options) + seq![
        SetupActionView::Start,
    ]
}

/// Whether `e` is the error that a refusal of `action` amounts to.
pub open spec fn is_failure_of(e: BgpStreamError, action: SetupActionView) -> bool {
    match action {
        SetupActionView::Create => e == BgpStreamError::Create,
        SetupActionView::AddFilter { .. } => e == BgpStreamError::AddFilter,
        SetupActionView::AddInterval { .. } => e == BgpStreamError::AddInterval,
        SetupActionView::AddRecentInterval { .. } => e == BgpStreamError::AddRecentInterval,
        SetupActionView::AddRibPeriod { .. } => e == BgpStreamError::AddRibPeriod,
        SetupActionView::ResolveInterface { name } => e matches BgpStreamError::InterfaceNotFound(
            s,
        ) && s@ == name,
        SetupActionView::ResolveOption { name } => e matches BgpStreamError::InterfaceOptionNotFound(
            s,
        ) && s@ == name,
        SetupActionView::SetOption { .. } => e == BgpStreamError::SetInterfaceOption,
        SetupActionView::Start => e == BgpStreamError::Start,
    }
}

/// Whether the data source accepted the action at index `i`. An action
/// without an answer was not accepted.
pub open spec fn accepted(answers: Seq<bool>, i: int) -> bool {
    0 <= i < answers.len() && answers[i]
}

/// Index of the first action at or after `from` that was not accepted, or
/// `len` if all of them were.
pub open spec fn first_refusal_from(len: int, answers: Seq<bool>, from: int) -> int
    decreases len - from,
{
    if from < 0 || from >= len || !accepted(answers, from) {
        from
    } else {
        first_refusal_from(len, answers, from + 1)
    }
}

/// Index of the first of `len` actions that was not accepted, or `len` if
/// all of them were.
pub open spec fn first_refusal(len: int, answers: Seq<bool>) -> int {
    first_refusal_from(len, answers, 0)
}

/// The first refusal lies within the plan or at its end, every action
/// before it was accepted, and the action at it was not.
pub proof fn lemma_first_refusal(len: int, answers: Seq<bool>, from: int)
    requires
        0 <= from <= len,
    ensures
        from <= first_refusal_from(len, answers, from) <= len,
        forall|i: int|
            from <= i < first_refusal_from(len, answers, from) ==> #[trigger] accepted(answers, i),
        first_refusal_from(len, answers, from) < len ==> !accepted(
            answers,
            first_refusal_from(len, answers, from),
        ),
    decreases len - from,
{
    if from < len && accepted(answers, from) {
        lemma_first_refusal(len, answers, from + 1);
    }
}

/// Whether a string of an action holds a NUL character.
pub open spec fn action_has_nul(action: SetupActionView) -> bool {
    match action {
        SetupActionView::AddFilter { value, .. } => has_nul(value),
        SetupActionView::AddRecentInterval { descriptor, .. } => has_nul(descriptor),
        SetupActionView::ResolveInterface { name } => has_nul(name),
        SetupActionView::ResolveOption { name } => has_nul(name),
        SetupActionView::SetOption { value } => has_nul(value),
        _ => false,
    }
}

/// A number in decimal holds no NUL character.
pub proof fn lemma_decimal_has_no_nul(n: nat)
    ensures
        !has_nul(decimal(n)),
    decreases n,
{
    if n >= 10 {
        lemma_decimal_has_no_nul(n / 10);
        let digits = decimal(n / 10);
        assert forall|i: int| 0 <= i < decimal(n).len() implies decimal(n)[i] != '\0' by {
            if i < digits.len() {
                assert(decimal(n)[i] == digits[i]);
            }
        }
    }
}

/// What a well-formed query asks of the data source holds no NUL
/// character: every string of its plan can be handed on as a C string.
pub proof fn lemma_plan_holds_no_nul(q: QueryView)
    requires
        q.wf(),
    ensures
        forall|i: int| 0 <= i < plan_of(q).len() ==> !action_has_nul(#[trigger] plan_of(q)[i]),
{
    let plan = plan_of(q);
    let filters = filter_actions(q.filters);
    let interval = interval_actions(q.interval);
    let rib = rib_period_actions(q.rib_period);
    let options = option_actions(q.options);
    assert forall|i: int| 0 <= i < interval.len() implies !action_has_nul(interval[i]) by {
        match q.interval {
            FilterInterval::Since { amount, unit, live } => {
                lemma_decimal_has_no_nul(amount as nat);
                reveal_strlit(" ");
                reveal_strlit("s");
                reveal_strlit("m");
                reveal_strlit("h");
                reveal_strlit("d");
                let number = decimal(amount as nat);
                let text = number + " "@ + unit.spec_letter();
                assert forall|k: int| 0 <= k < text.len() implies text[k] != '\0' by {
                    if k < number.len() {
                        assert(text[k] == number[k]);
                    }
                }
            },
            _ => {},
        }
    }
    assert forall|i: int| 0 <= i < options.len() implies !action_has_nul(options[i]) by {
        assert(0 <= i / 3 < q.options.len());
        assert(!has_nul(q.options[i / 3].0));
    }
    assert forall|i: int| 0 <= i < plan.len() implies !action_has_nul(#[trigger] plan[i]) by {
        let a = 1 + filters.len();
        let b = a + interval.len();
        let c = b + rib.len();
        let d = c + options.len();
        if i == 0 {
        } else if i < a {
            assert(plan[i] == filters[i - 1]);
            assert(!has_nul(q.filters[i - 1].1));
        } else if i < b {
            assert(plan[i] == interval[i - a]);
        } else if i < c {
            assert(plan[i] == rib[i - b]);
        } else if i < d {
            assert(plan[i] == options[i - c]);
        } else {
        }
    }
}

impl SetupAction {
    /// The error that a refusal of this action amounts to. A data
    /// interface or an option that was not found is named in the error.
    pub fn failure(&self) -> (e: BgpStreamError)
        ensures
            is_failure_of(e, self@),
    {
        match self {
            SetupAction::Create => BgpStreamError::Create,
            SetupAction::AddFilter { .. } => BgpStreamError::AddFilter,
            SetupAction::AddInterval { .. } => BgpStreamError::AddInterval,
            SetupAction::AddRecentInterval { .. } => BgpStreamError::AddRecentInterval,
            SetupAction::AddRibPeriod { .. } => BgpStreamError::AddRibPeriod,
            SetupAction::ResolveInterface { name } => BgpStreamError::InterfaceNotFound(
                name.clone(),
            ),
            SetupAction::ResolveOption { name } => BgpStreamError::InterfaceOptionNotFound(
                name.clone(),
            ),
            SetupAction::SetOption { .. } => BgpStreamError::SetInterfaceOption,
            SetupAction::Start => BgpStreamError::Start,
        }
    }
}

/// The epoch seconds of an instant as the data source takes them. Seconds
/// that fit 32 bits are passed as they are; of others the low 32 bits
/// remain.
pub fn interval_seconds(t: &Timestamp) -> (secs: u32)
    ensures
        secs == interval_bound(*t),
        0 <= t.seconds <= u32::MAX ==> secs == t.seconds,
{
    #[verifier::truncate]
    (t.seconds as u32)
}

/// Describes a relative interval: the amount in decimal, a space and the
/// letter of the unit.
pub fn recent_interval_descriptor(amount: usize, unit: crate::query::TimeUnit) -> (s: String)
    ensures
        s@ == decimal(amount as nat) + " "@ + unit.spec_letter(),
{
    decimal_string(amount as u64).concat(" ").concat(unit.letter())
}

impl Query {
    /// Lists what opening a stream for this query asks of the data source,
    /// in order: create the handle, add every filter in the order in which
    /// it was added, apply the interval, apply the RIB period if one is
    /// set, set every data interface option, start.
    pub fn plan(&self) -> (plan: Vec<SetupAction>)
        ensures
            actions_view(plan@) == plan_of(self@),
            plan@.len() == plan_of(self@).len(),
            forall|i: int| 0 <= i < plan@.len() ==> (#[trigger] plan@[i])@ == plan_of(self@)[i],
    {
        let mut plan: Vec<SetupAction> = Vec::new();
        plan.push(SetupAction::Create);
        assert(actions_view(plan@) =~= seq![SetupActionView::Create]);
        let filters = self.filters();
        let mut i: usize = 0;
        while i < filters.len()
            invariant
                0 <= i <= filters@.len(),
                filters@.len() == self@.filters.len(),
                forall|k: int|
                    0 <= k < filters@.len() ==> (#[trigger] filters@[k]).kind == self@.filters[k].0
                        && filters@[k].value@ == self@.filters[k].1,
                actions_view(plan@) == seq![SetupActionView::Create] + filter_actions(
                    self@.filters,
                ).take(i as int),
            decreases filters.len() - i,
        {
            let ghost before = actions_view(plan@);
            plan.push(SetupAction::AddFilter { kind: filters[i].kind, value: filters[i].value.clone() });
            assert(actions_view(plan@) =~= before.push(
                SetupActionView::AddFilter { kind: self@.filters[i as int].0, value: self@.filters[i as int].1 },
            ));
            i += 1;
            assert(actions_view(plan@) =~= seq![SetupActionView::Create] + filter_actions(
                self@.filters,
            ).take(i as int));
        }
        assert(filter_actions(self@.filters).take(i as int) =~= filter_actions(self@.filters));
        let ghost head = seq![SetupActionView::Create] + filter_actions(self@.filters);
        match self.time_interval() {
            FilterInterval::Open => {},
            FilterInterval::Interval { start, stop } => {
                let stop = match stop {
                    Some(t) => interval_seconds(&t),
                    None => NO_UPPER_BOUND,
                };
                let ghost before = actions_view(plan@);
                plan.push(SetupAction::AddInterval { start: interval_seconds(&start), stop });
                assert(actions_view(plan@) =~= before.push(
                    SetupActionView::AddInterval { start: interval_bound(start), stop },
                ));
            },
            FilterInterval::Since { amount, unit, live } => {
                let descriptor = recent_interval_descriptor(amount, unit);
                let ghost before = actions_view(plan@);
                let ghost text = descriptor@;
                plan.push(SetupAction::AddRecentInterval { descriptor, live });
                assert(actions_view(plan@) =~= before.push(
                    SetupActionView::AddRecentInterval { descriptor: text, live },
                ));
            },
        }
        assert(actions_view(plan@) =~= head + interval_actions(self@.interval));
        match self.rib_period_seconds() {
            Some(seconds) => {
                let ghost before = actions_view(plan@);
                plan.push(SetupAction::AddRibPeriod { seconds });
                assert(actions_view(plan@) =~= before.push(
                    SetupActionView::AddRibPeriod { seconds },
                ));
            },
            None => {},
        }
        let ghost head = head + interval_actions(self@.interval) + rib_period_actions(
            self@.rib_period,
        );
        assert(actions_view(plan@) =~= head);
        let options = self.data_interface_options();
        let mut j: usize = 0;
        while j < options.len()
            invariant
                0 <= j <= options@.len(),
                options@.len() == self@.options.len(),
                forall|k: int|
                    0 <= k < options@.len() ==> (#[trigger] options@[k]).interface@
                        == self@.options[k].0 && options@[k].option@ == self@.options[k].1
                        && options@[k].value@ == self@.options[k].2,
                actions_view(plan@) == head + option_actions(self@.options).take(3 * j),
            decreases options.len() - j,
        {
            let ghost before = actions_view(plan@);
            plan.push(SetupAction::ResolveInterface { name: options[j].interface.clone() });
            plan.push(SetupAction::ResolveOption { name: options[j].option.clone() });
            plan.push(SetupAction::SetOption { value: options[j].value.clone() });
            assert(actions_view(plan@) =~= before.push(
                SetupActionView::ResolveInterface { name: self@.options[j as int].0 },
            ).push(SetupActionView::ResolveOption { name: self@.options[j as int].1 }).push(
                SetupActionView::SetOption { value: self@.options[j as int].2 },
            ));
            j += 1;
            assert(actions_view(plan@) =~= head + option_actions(self@.options).take(3 * j));
        }
        assert(option_actions(self@.options).take(3 * j) =~= option_actions(self@.options));
        let ghost before = actions_view(plan@);
        plan.push(SetupAction::Start);
        assert(actions_view(plan@) =~= before.push(SetupActionView::Start));
        assert(actions_view(plan@) =~= plan_of(self@));
        assert forall|i: int| 0 <= i < plan@.len() implies (#[trigger] plan@[i])@ == plan_of(
            self@,
        )[i] by {
            assert(actions_view(plan@)[i] == plan@[i]@);
        }
        plan
    }

    /// Opens the stream, given what the data source answered to the
    /// actions of the plan: one answer per action, in order, `true` where
    /// it accepted. The stream is started if every action was accepted.
    /// Otherwise the error is that of the first action that was not; what
    /// comes after a refusal is never asked, so answers may end there.
    pub fn run(&self, answers: &Vec<bool>) -> (r: Result<BgpStream, BgpStreamError>)
        ensures
            ({
                let plan = plan_of(self@);
                let refused = first_refusal(plan.len() as int, answers@);
                &&& refused == plan.len() ==> r is Ok && r->Ok_0.current_record is None
                    && !r->Ok_0.finished
                &&& refused < plan.len() ==> r is Err && is_failure_of(r->Err_0, plan[refused])
            }),
    {
        let plan = self.plan();
        let mut i: usize = 0;
        proof {
            lemma_first_refusal(plan@.len() as int, answers@, 0);
        }
        while i < plan.len()
            invariant
                0 <= i <= plan@.len(),
                actions_view(plan@) == plan_of(self@),
                first_refusal(plan@.len() as int, answers@) == first_refusal_from(
                    plan@.len() as int,
                    answers@,
                    i as int,
                ),
            decreases plan.len() - i,
        {
            if i >= answers.len() || !answers[i] {
                assert(actions_view(plan@)[i as int] == plan@[i as int]@);
                return Err(plan[i].failure());
            }
            i += 1;
        }
        Ok(BgpStream::new())
    }
}

} // verus!
