//! The watcher of one website: what it is told, what it remembers, and
//! what it reports as the outcomes of its checks come in.

use crate::config::{Global, Method, Website, WebsiteView};
use crate::report::{report_of, Level, Report, ReportView};
use crate::span::Span;
use crate::website::{ProbeError, WebsiteInfo, WebsiteState};
use vstd::prelude::*;
use vstd::string::StringExecFns;

verus! {

/// Why a website's settings give no watcher.
#[derive(Debug, PartialEq, Eq)]
pub enum ConfigError {
    /// The address is no absolute URL; the text says what is wrong with it.
    MalformedUrl(String),
    /// Checks would follow each other without pause.
    ZeroInterval,
    /// No answer could ever come in time.
    ZeroTimeout,
}

/// A `ConfigError` with its text as a sequence of characters.
pub enum ConfigErrorView {
    MalformedUrl(Seq<char>),
    ZeroInterval,
    ZeroTimeout,
}

impl View for ConfigError {
    type V = ConfigErrorView;

    open spec fn view(&self) -> ConfigErrorView {
        match self {
            ConfigError::MalformedUrl(why) => ConfigErrorView::MalformedUrl(why@),
            ConfigError::ZeroInterval => ConfigErrorView::ZeroInterval,
            ConfigError::ZeroTimeout => ConfigErrorView::ZeroTimeout,
        }
    }
}

impl ConfigError {
    /// What `to_text` writes for an error.
    pub open spec fn text(self) -> Seq<char> {
        match self {
            ConfigError::MalformedUrl(why) => "malformed url: "@ + why@,
            ConfigError::ZeroInterval => "interval is zero"@,
            ConfigError::ZeroTimeout => "timeout is zero"@,
        }
    }

    /// The error in words.
    pub fn to_text(&self) -> (text: String)
        ensures
            text@ == self.text(),
    {
        match self {
            ConfigError::MalformedUrl(why) => String::from_str("malformed url: ").concat(
                why.as_str(),
            ),
            ConfigError::ZeroInterval => String::from_str("interval is zero"),
            ConfigError::ZeroTimeout => String::from_str("timeout is zero"),
        }
    }
}

/// What `reqwest::Url::parse` makes of a text: the URL written out in its
/// normal form, or the words in which the text is refused.
pub uninterp spec fn url_parse(text: Seq<char>) -> Result<Seq<char>, Seq<char>>;

/// Parses `text` with `reqwest::Url::parse`.
///
/// Trusted: the outcome depends on the text alone. A URL comes back as the
/// parser writes it out, a refusal as the message of the parser's error.
#[verifier::external_body]
fn parse_url(text: &str) -> (parsed: Result<String, String>)
    ensures
        match parsed {
            Ok(url) => url_parse(text@) == Ok::<Seq<char>, Seq<char>>(url@),
            Err(why) => url_parse(text@) == Err::<Seq<char>, Seq<char>>(why@),
        },
{
    match reqwest::Url::parse(text) {
        Ok(url) => Ok(String::from(url)),
        Err(error) => Err(error.to_string()),
    }
}

/// What a watcher is told once and never changes.
pub struct Descriptor {
    /// The name the website goes by.
    pub name: Seq<char>,
    /// The address as the settings give it.
    pub address: Seq<char>,
    /// The address in its normal form, to which the requests go.
    pub url: Seq<char>,
    pub method: Method,
    /// Seconds from one check to the next.
    pub interval: u64,
    /// Milliseconds a check waits for the answer.
    pub timeout: u64,
}

/// A watcher as a value: its descriptor, the state it saw last, and how many
/// checks in a row have found the website up.
pub struct TargetView {
    pub descriptor: Descriptor,
    pub last: Option<WebsiteState>,
    pub count: nat,
}

/// The value a setting takes: its own where it has one, else the default.
pub open spec fn effective(own: Option<u64>, default: u64) -> u64 {
    match own {
        Some(value) => value,
        None => default,
    }
}

/// The watcher that a website's settings give, once its address has been
/// parsed with the outcome `parsed`.
pub open spec fn assembled(
    name: Seq<char>,
    cfg: WebsiteView,
    global: Global,
    parsed: Result<Seq<char>, Seq<char>>,
) -> Result<TargetView, ConfigErrorView> {
    let interval = effective(cfg.interval, global.default_interval);
    let timeout = effective(cfg.timeout, global.default_timeout);
    match parsed {
        Err(why) => Err(ConfigErrorView::MalformedUrl(why)),
        Ok(url) => if interval == 0 {
            Err(ConfigErrorView::ZeroInterval)
        } else if timeout == 0 {
            Err(ConfigErrorView::ZeroTimeout)
        } else {
            Ok(
                TargetView {
                    descriptor: Descriptor {
                        name,
                        address: cfg.url,
                        url,
                        method: cfg.method,
                        interval,
                        timeout,
                    },
                    last: None,
                    count: 0,
                },
            )
        },
    }
}

/// The watcher that a website's settings give.
pub open spec fn configured(name: Seq<char>, cfg: WebsiteView, global: Global) -> Result<
    TargetView,
    ConfigErrorView,
> {
    assembled(name, cfg, global, url_parse(cfg.url))
}

/// Whether a hoped-for value and what a function made agree: both the same
/// watcher, or both the same refusal.
pub open spec fn made(
    promised: Result<TargetView, ConfigErrorView>,
    got: Result<Target, ConfigError>,
) -> bool {
    match got {
        Ok(target) => promised == Ok::<TargetView, ConfigErrorView>(target@),
        Err(error) => promised == Err::<TargetView, ConfigErrorView>(error@),
    }
}

/// Whether a check that finds `state` is worth a report after `last`: the
/// first check always is, a later one when the kind of state has changed.
pub open spec fn changes(last: Option<WebsiteState>, state: WebsiteState) -> bool {
    match last {
        None => true,
        Some(before) => !before.same_kind(state),
    }
}

/// The report, if any, that a watcher gives when a check finds `state`.
pub open spec fn emitted(target: TargetView, state: WebsiteState) -> Option<ReportView> {
    if changes(target.last, state) {
        Some(report_of(target.descriptor, state))
    } else {
        None
    }
}

/// The watcher after a check that found `state`: it remembers the state,
/// and counts on while the website is up.
pub open spec fn step(target: TargetView, state: WebsiteState) -> TargetView {
    TargetView {
        descriptor: target.descriptor,
        last: Some(state),
        count: if state is Up {
            target.count + 1
        } else {
            0
        },
    }
}

/// The watcher after checks that found `states`, one after the other.
pub open spec fn after(target: TargetView, states: Seq<WebsiteState>) -> TargetView
    decreases states.len(),
{
    if states.len() == 0 {
        target
    } else {
        step(after(target, states.drop_last()), states.last())
    }
}

/// A report together with the number of the check that gave rise to it.
#[derive(Debug, PartialEq, Eq)]
pub struct Emission {
    pub index: usize,
    pub report: Report,
}

/// An `Emission` as a value.
pub struct EmissionView {
    pub index: int,
    pub report: ReportView,
}

impl View for Emission {
    type V = EmissionView;

    open spec fn view(&self) -> EmissionView {
        EmissionView { index: self.index as int, report: self.report@ }
    }
}

/// The reports that a watcher gives over checks that found `states`, one
/// after the other, each with the number of its check.
pub open spec fn emissions(target: TargetView, states: Seq<WebsiteState>) -> Seq<EmissionView>
    decreases states.len(),
{
    if states.len() == 0 {
        Seq::empty()
    } else {
        let earlier = states.drop_last();
        match emitted(after(target, earlier), states.last()) {
            Some(report) => emissions(target, earlier).push(
                EmissionView { index: earlier.len() as int, report },
            ),
            None => emissions(target, earlier),
        }
    }
}

/// The states that a run of probe outcomes stands for.
pub open spec fn states_of(outcomes: Seq<Result<Span, ProbeError>>) -> Seq<WebsiteState> {
    Seq::new(outcomes.len(), |i: int| WebsiteState::classify(outcomes[i]))
}

/// A run of emissions as values.
pub open spec fn emission_views(gathered: Seq<Emission>) -> Seq<EmissionView> {
    Seq::new(gathered.len(), |i: int| gathered[i]@)
}

/// What one check came to: the state found, the count of checks in a row
/// that found the website up, and the report where one is due.
#[derive(Debug, PartialEq, Eq)]
pub struct Tick {
    pub state: WebsiteState,
    pub count: u64,
    pub report: Option<Report>,
}

/// Whether an optional report is the one that was due.
pub open spec fn reported(due: Option<ReportView>, report: Option<Report>) -> bool {
    match report {
        Some(r) => due == Some(r@),
        None => due is None,
    }
}

/// The watcher of one website.
#[derive(Debug)]
pub struct Target {
    url: String,
    method: Method,
    interval: u64,
    timeout: u64,
    info: WebsiteInfo,
    last: Option<WebsiteState>,
    count: u64,
}

impl View for Target {
    type V = TargetView;

    closed spec fn view(&self) -> TargetView {
        TargetView {
            descriptor: Descriptor {
                name: self.info.name@,
                address: self.info.url@,
                url: self.url@,
                method: self.method,
                interval: self.interval,
                timeout: self.timeout,
            },
            last: self.last,
            count: self.count as nat,
        }
    }
}

impl Target {
    #[verifier::type_invariant]
    spec fn inv(self) -> bool {
        self.interval > 0 && self.timeout > 0
    }

    /// A fresh watcher for the website `name` with the settings `cfg`, where
    /// `global` fills in what `cfg` leaves out. The address must be an
    /// absolute URL, and neither the interval nor the timeout may be zero.
    pub fn from_config(name: &str, cfg: &Website, global: &Global) -> (target: Result<
        Self,
        ConfigError,
    >)
        ensures
            made(configured(name@, cfg@, *global), target),
    {
        let parsed = parse_url(cfg.url.as_str());
        Self::assemble(name, cfg, global, parsed)
    }

    /// As `from_config`, with the outcome of parsing the address handed in.
    pub fn assemble(
        name: &str,
        cfg: &Website,
        global: &Global,
        parsed: Result<String, String>,
    ) -> (target: Result<Self, ConfigError>)
        ensures
            made(
                assembled(
                    name@,
                    cfg@,
                    *global,
                    match parsed {
                        Ok(url) => Ok(url@),
                        Err(why) => Err(why@),
                    },
                ),
                target,
            ),
    {
        let url = match parsed {
            Ok(url) => url,
            Err(why) => {
                return Err(ConfigError::MalformedUrl(why));
            },
        };
        let interval = cfg.interval.unwrap_or(global.default_interval);
        if interval == 0 {
            return Err(ConfigError::ZeroInterval);
        }
        let timeout = cfg.timeout.unwrap_or(global.default_timeout);
        if timeout == 0 {
            return Err(ConfigError::ZeroTimeout);
        }
        let info = WebsiteInfo::new(name, cfg.url.as_str());
        let obj = Self { url, method: cfg.method, interval, timeout, info, last: None, count: 0 };
        Ok(obj)
    }

    /// The name and the address under which the website is reported.
    pub fn info(&self) -> (info: &WebsiteInfo)
        ensures
            info.name@ == self@.descriptor.name,
            info.url@ == self@.descriptor.address,
    {
        &self.info
    }

    /// The address to which the requests go.
    pub fn url(&self) -> (url: &str)
        ensures
            url@ == self@.descriptor.url,
    {
        self.url.as_str()
    }

    /// The HTTP method of the requests.
    pub fn method(&self) -> (method: Method)
        ensures
            method == self@.descriptor.method,
    {
        self.method
    }

    /// Seconds from one check to the next; never zero.
    pub fn interval_secs(&self) -> (seconds: u64)
        ensures
            seconds == self@.descriptor.interval,
            seconds > 0,
    {
        proof {
            use_type_invariant(self);
        }
        self.interval
    }

    /// Milliseconds a check waits for the answer; never zero.
    pub fn timeout_millis(&self) -> (millis: u64)
        ensures
            millis == self@.descriptor.timeout,
            millis > 0,
    {
        proof {
            use_type_invariant(self);
        }
        self.timeout
    }

    /// The state that the last check found; none before the first check.
    pub fn last(&self) -> (last: Option<WebsiteState>)
        ensures
            last == self@.last,
    {
        self.last
    }

    /// How many checks in a row have found the website up.
    pub fn count(&self) -> (count: u64)
        ensures
            count == self@.count,
    {
        self.count
    }

    /// Takes in the outcome of one check: classifies it, counts it, and
    /// reports it where the kind of state has changed.
    pub fn tick(&mut self, outcome: &Result<Span, ProbeError>) -> (tick: Tick)
        requires
            old(self)@.count < u64::MAX,
        ensures
            final(self)@ == step(old(self)@, WebsiteState::classify(*outcome)),
            tick.state == WebsiteState::classify(*outcome),
            tick.count == final(self)@.count,
            reported(emitted(old(self)@, WebsiteState::classify(*outcome)), tick.report),
    {
        let state = WebsiteState::new(outcome);
        let count: u64 = if outcome.is_ok() {
            self.count + 1
        } else {
            0
        };
        let report = self.do_report(state);
        proof {
            use_type_invariant(&*self);
        }
        self.count = count;
        Tick { state, count, report }
    }

    /// Runs the outcomes of a series of checks through the watcher, and
    /// gathers the reports it gives, each with the number of its check.
    pub fn watch(&mut self, outcomes: &[Result<Span, ProbeError>]) -> (gathered: Vec<Emission>)
        requires
            old(self)@.count + outcomes@.len() <= u64::MAX,
        ensures
            final(self)@ == after(old(self)@, states_of(outcomes@)),
            emission_views(gathered@) == emissions(old(self)@, states_of(outcomes@)),
    {
        let ghost start = self@;
        let ghost states = states_of(outcomes@);
        let mut gathered: Vec<Emission> = Vec::new();
        let mut index: usize = 0;
        while index < outcomes.len()
            invariant
                index <= outcomes@.len(),
                states == states_of(outcomes@),
                start.count + outcomes@.len() <= u64::MAX,
                self@.count <= start.count + index,
                self@ == after(start, states.take(index as int)),
                emission_views(gathered@) == emissions(start, states.take(index as int)),
            decreases outcomes@.len() - index,
        {
            let tick = self.tick(&outcomes[index]);
            if let Some(report) = tick.report {
                gathered.push(Emission { index, report });
            }
            assert(states.take(index + 1).drop_last() == states.take(index as int));
            index += 1;
        }
        assert(states.take(index as int) == states);
        gathered
    }

    /// Remembers `state` as the last one seen, and reports it where it is
    /// the first or of another kind than the one before.
    pub fn do_report(&mut self, state: WebsiteState) -> (report: Option<Report>)
        ensures
            final(self)@ == (TargetView { last: Some(state), ..old(self)@ }),
            reported(emitted(old(self)@, state), report),
    {
        let report = if let Some(last) = &self.last {
            if !last.is_same_kind(&state) {
                Some(self.report_state(&state))
            } else {
                None
            }
        } else {
            Some(self.report_state(&state))
        };
        proof {
            use_type_invariant(&*self);
        }
        self.last = Some(state);
        report
    }

    /// The report on the website being in `state`.
    pub fn report_state(&self, state: &WebsiteState) -> (report: Report)
        ensures
            report@ == report_of(self@.descriptor, *state),
    {
        match state {
            WebsiteState::Up(t) => self.report_success(t),
            WebsiteState::Timeout => self.report_timeout(),
            WebsiteState::Down => self.report_failure(),
        }
    }

    fn report_success(&self, t: &Span) -> (report: Report)
        ensures
            report@ == report_of(self@.descriptor, WebsiteState::Up(*t)),
    {
        let took = t.to_text();
        let text = self.url.clone().concat(" is up (").concat(took.as_str()).concat(")");
        Report { info: self.whom(), state: WebsiteState::Up(*t), level: Level::Info, text }
    }

    fn report_timeout(&self) -> (report: Report)
        ensures
            report@ == report_of(self@.descriptor, WebsiteState::Timeout),
    {
        let allowed = Span::from_millis(self.timeout).to_text();
        let text = self.url.clone().concat(" request timed out (timeout=").concat(
            allowed.as_str(),
        ).concat(")");
        Report { info: self.whom(), state: WebsiteState::Timeout, level: Level::Warn, text }
    }

    fn report_failure(&self) -> (report: Report)
        ensures
            report@ == report_of(self@.descriptor, WebsiteState::Down),
    {
        let text = self.url.clone().concat(" is down");
        Report { info: self.whom(), state: WebsiteState::Down, level: Level::Warn, text }
    }

    /// The name and the address of the website, for a report of its own.
    fn whom(&self) -> (info: WebsiteInfo)
        ensures
            info.name@ == self@.descriptor.name,
            info.url@ == self@.descriptor.address,
    {
        WebsiteInfo::new(self.info.name.as_str(), self.info.url.as_str())
    }
}

/// The state that a watcher has seen last when check number `i` comes in.
pub open spec fn seen_before(last: Option<WebsiteState>, states: Seq<WebsiteState>, i: int) -> Option<
    WebsiteState,
> {
    if i == 0 {
        last
    } else {
        Some(states[i - 1])
    }
}

/// Over a run of checks a watcher keeps its descriptor and ends up
/// remembering the state found last.
pub proof fn after_remembers_the_last(target: TargetView, states: Seq<WebsiteState>)
    ensures
        after(target, states).descriptor == target.descriptor,
        after(target, states).last == seen_before(target.last, states, states.len() as int),
    decreases states.len(),
{
    if states.len() > 0 {
        after_remembers_the_last(target, states.drop_last());
    }
}

/// Whether `e` reports check number `e.index` of `states`, as a check that
/// is the first or finds another kind of state than the one before.
pub open spec fn marks_a_change(target: TargetView, states: Seq<WebsiteState>, e: EmissionView) -> bool {
    &&& 0 <= e.index < states.len()
    &&& changes(seen_before(target.last, states, e.index), states[e.index])
    &&& e.report == report_of(target.descriptor, states[e.index])
}

proof fn emissions_are_changes(target: TargetView, states: Seq<WebsiteState>)
    ensures
        forall|k: int|
            0 <= k < emissions(target, states).len() ==> marks_a_change(
                target,
                states,
                #[trigger] emissions(target, states)[k],
            ),
    decreases states.len(),
{
    if states.len() > 0 {
        let earlier = states.drop_last();
        let before = emissions(target, earlier);
        let now = emissions(target, states);
        emissions_are_changes(target, earlier);
        after_remembers_the_last(target, earlier);
        assert forall|k: int| 0 <= k < now.len() implies marks_a_change(
            target,
            states,
            #[trigger] now[k],
        ) by {
            if k < before.len() {
                assert(marks_a_change(target, earlier, before[k]));
            }
        }
    }
}

proof fn emissions_are_in_order(target: TargetView, states: Seq<WebsiteState>)
    ensures
        forall|j: int, k: int|
            0 <= j < k < emissions(target, states).len() ==> (#[trigger] emissions(
                target,
                states,
            )[j]).index < (#[trigger] emissions(target, states)[k]).index,
    decreases states.len(),
{
    if states.len() > 0 {
        let earlier = states.drop_last();
        let before = emissions(target, earlier);
        let now = emissions(target, states);
        emissions_are_in_order(target, earlier);
        emissions_are_changes(target, earlier);
        assert forall|j: int, k: int| 0 <= j < k < now.len() implies (#[trigger] now[j]).index < (
        #[trigger] now[k]).index by {
            assert(marks_a_change(target, earlier, before[j]));
        }
    }
}

proof fn changes_are_emitted(target: TargetView, states: Seq<WebsiteState>, i: int)
    requires
        0 <= i < states.len(),
        changes(seen_before(target.last, states, i), states[i]),
    ensures
        exists|k: int|
            0 <= k < emissions(target, states).len() && #[trigger] emissions(
                target,
                states,
            )[k].index == i,
    decreases states.len(),
{
    let earlier = states.drop_last();
    let before = emissions(target, earlier);
    let now = emissions(target, states);
    after_remembers_the_last(target, earlier);
    if i < earlier.len() {
        changes_are_emitted(target, earlier, i);
        let k = choose|k: int| 0 <= k < before.len() && #[trigger] before[k].index == i;
        assert(now[k].index == i);
    } else {
        assert(now[now.len() - 1].index == i);
    }
}

/// Repeated states of one kind are reported once: over any run of checks a
/// watcher reports exactly those that are its first or find a state of
/// another kind than the check before, in their order, each with the
/// report on the state found.
pub proof fn emissions_mark_the_changes(target: TargetView, states: Seq<WebsiteState>)
    ensures
        forall|k: int|
            0 <= k < emissions(target, states).len() ==> marks_a_change(
                target,
                states,
                #[trigger] emissions(target, states)[k],
            ),
        forall|j: int, k: int|
            0 <= j < k < emissions(target, states).len() ==> (#[trigger] emissions(
                target,
                states,
            )[j]).index < (#[trigger] emissions(target, states)[k]).index,
        forall|i: int|
            0 <= i < states.len() && changes(
                seen_before(target.last, states, i),
                #[trigger] states[i],
            ) ==> exists|k: int|
                0 <= k < emissions(target, states).len() && #[trigger] emissions(
                    target,
                    states,
                )[k].index == i,
{
    emissions_are_changes(target, states);
    emissions_are_in_order(target, states);
    assert forall|i: int|
        0 <= i < states.len() && changes(
            seen_before(target.last, states, i),
            #[trigger] states[i],
        ) implies exists|k: int|
        0 <= k < emissions(target, states).len() && #[trigger] emissions(target, states)[k].index
            == i by {
        changes_are_emitted(target, states, i);
    }
}

/// The report given last tells the kind of state that the watcher remembers;
/// where none was given, every check found the kind of state that the
/// watcher had seen before them.
pub proof fn the_last_report_tells_the_kind(target: TargetView, states: Seq<WebsiteState>)
    requires
        states.len() > 0,
    ensures
        emissions(target, states).len() > 0 ==> emissions(
            target,
            states,
        ).last().report.state.same_kind(states.last()),
        emissions(target, states).len() == 0 ==> (target.last matches Some(before)
            && before.same_kind(states.last())),
    decreases states.len(),
{
    let earlier = states.drop_last();
    after_remembers_the_last(target, earlier);
    if earlier.len() > 0 {
        the_last_report_tells_the_kind(target, earlier);
    }
    if changes(after(target, earlier).last, states.last()) {
        assert(emissions(target, states).last().report.state == states.last());
    } else {
        assert(emissions(target, states) == emissions(target, earlier));
    }
}

/// Of two reports that follow each other, the second tells another kind of
/// state than the first: no kind of state is reported twice in a row.
pub proof fn reports_in_a_row_differ_in_kind(target: TargetView, states: Seq<WebsiteState>, k: int)
    requires
        0 <= k,
        k + 1 < emissions(target, states).len(),
    ensures
        !emissions(target, states)[k].report.state.same_kind(
            emissions(target, states)[k + 1].report.state,
        ),
    decreases states.len(),
{
    let earlier = states.drop_last();
    let before = emissions(target, earlier);
    if k + 1 < before.len() {
        reports_in_a_row_differ_in_kind(target, earlier, k);
    } else {
        after_remembers_the_last(target, earlier);
        the_last_report_tells_the_kind(target, earlier);
    }
}

/// A fresh watcher has seen nothing, and reports its first check whatever
/// the check finds: one report, no more and no less.
pub proof fn first_check_is_reported(
    name: Seq<char>,
    cfg: WebsiteView,
    global: Global,
    outcome: Result<Span, ProbeError>,
)
    requires
        configured(name, cfg, global) is Ok,
    ensures
        ({
            let fresh = configured(name, cfg, global)->Ok_0;
            let state = WebsiteState::classify(outcome);
            &&& fresh.last is None
            &&& fresh.count == 0
            &&& emitted(fresh, state) == Some(report_of(fresh.descriptor, state))
            &&& emissions(fresh, seq![state]) == seq![
                EmissionView { index: 0, report: report_of(fresh.descriptor, state) },
            ]
        }),
{
    let fresh = configured(name, cfg, global)->Ok_0;
    let before = seq![WebsiteState::classify(outcome)].drop_last();
    assert(emissions(fresh, before) == Seq::<EmissionView>::empty());
}

/// Settings that spell out interval and timeout, and settings that leave
/// both to global defaults of the same values, give the same watcher or the
/// same refusal; the two watchers then give the same reports and end in the
/// same state, whatever their checks find.
pub proof fn defaults_stand_in_for_settings(
    name: Seq<char>,
    explicit: WebsiteView,
    implicit: WebsiteView,
    any: Global,
    defaults: Global,
    states: Seq<WebsiteState>,
)
    requires
        explicit.url == implicit.url,
        explicit.method == implicit.method,
        explicit.interval == Some(defaults.default_interval),
        explicit.timeout == Some(defaults.default_timeout),
        implicit.interval is None,
        implicit.timeout is None,
    ensures
        configured(name, explicit, any) == configured(name, implicit, defaults),
        configured(name, explicit, any) matches Ok(spelled) ==> {
            let left = configured(name, implicit, defaults)->Ok_0;
            &&& emissions(spelled, states) == emissions(left, states)
            &&& after(spelled, states) == after(left, states)
        },
{
}

} // verus!
