use vstd::prelude::*;

use crate::error::Error;
use crate::event::LabeledEvent;
use crate::metrics::{strings_view, MetricFamily};

verus! {

/// Rate-limited attempts of one page that are retried; one more ends the fetch.
pub const MAX_RETRIES: u32 = 10;

/// The delay before the first retry is twice this many milliseconds.
pub const BASE_DELAY_MS: u64 = 50;

pub open spec fn pow2(k: nat) -> nat
    decreases k,
{
    if k == 0 {
        1
    } else {
        2 * pow2((k - 1) as nat)
    }
}

/// The pause before the `k`-th retry of a page: `50ms * 2^k`.
pub open spec fn backoff_delay(k: nat) -> nat {
    (BASE_DELAY_MS * pow2(k)) as nat
}

proof fn lemma_pow2_bound(k: nat)
    requires
        k <= 10,
    ensures
        pow2(k) <= 1024,
    decreases 10 - k,
{
    if k < 10 {
        lemma_pow2_bound(k + 1);
    } else {
        reveal_with_fuel(pow2, 11);
    }
}

/// The pause, in milliseconds, before retry number `retry`.
pub fn backoff_ms(retry: u32) -> (r: u64)
    requires
        retry <= MAX_RETRIES,
    ensures
        r == backoff_delay(retry as nat),
{
    let mut d: u64 = BASE_DELAY_MS;
    let mut k: u32 = 0;
    while k < retry
        invariant
            k <= retry <= MAX_RETRIES,
            d == backoff_delay(k as nat),
        decreases retry - k,
    {
        proof {
            lemma_pow2_bound((k + 1) as nat);
        }
        d = d * 2;
        k = k + 1;
    }
    d
}

/// The text of an optional string.
pub open spec fn opt_view(o: Option<String>) -> Option<Seq<char>> {
    match o {
        Some(s) => Some(s@),
        None => None,
    }
}

/// An error code of the provider that signals rate limiting.
pub open spec fn rate_limit_code(code: Seq<char>) -> bool {
    code == "ThrottlingException"@ || code == "TooManyRequestsException"@
}

/// A failed listing call, as the provider described it.
pub struct ProviderFailure {
    /// The HTTP status of the response, if one came back.
    pub status: Option<u16>,
    /// The provider's error code, if it gave one.
    pub code: Option<String>,
    pub message: String,
}

impl ProviderFailure {
    /// Rate limiting: HTTP 429, or a throttling error code.
    pub open spec fn is_rate_limit_spec(&self) -> bool {
        self.status == Some(429u16) || (self.code is Some && rate_limit_code(self.code->Some_0@))
    }

    pub fn is_rate_limit(&self) -> (r: bool)
        ensures
            r == self.is_rate_limit_spec(),
    {
        if self.status == Some(429u16) {
            return true;
        }
        match &self.code {
            Some(c) => *c == String::from_str("ThrottlingException") || *c == String::from_str("TooManyRequestsException"),
            None => false,
        }
    }
}

/// Where a fetch stands.
pub enum Phase {
    /// A page request with the current cursor is due or in flight.
    Fetching,
    /// The last attempt was rate-limited; a pause is due before the retry.
    Backoff,
    /// The last page had no cursor.
    Done,
    /// The fetch was aborted.
    Failed(Error),
}

/// What the driver of a fetch is asked to do next.
#[derive(Debug)]
pub enum Action {
    /// Issue one page request with this cursor.
    Request(Option<String>),
    /// Sleep this many milliseconds, then report it.
    Sleep(u64),
    /// Stop: every page was fetched.
    Finish,
    /// Stop: the fetch failed.
    Abort(Error),
}

/// What was reported to a fetch.
pub enum Outcome {
    /// A page arrived, with the cursor of the next one if there is one.
    Page(Option<Seq<char>>),
    /// The attempt was refused for rate limiting.
    RateLimited,
    /// The pause asked for has elapsed.
    Elapsed,
    /// The fetch cannot go on.
    Failure(Error),
}

/// An action, with its cursor as text.
pub enum Step {
    Request(Option<Seq<char>>),
    Sleep(nat),
    Finish,
    Abort(Error),
}

impl View for Action {
    type V = Step;

    open spec fn view(&self) -> Step {
        match self {
            Action::Request(c) => Step::Request(opt_view(*c)),
            Action::Sleep(ms) => Step::Sleep(*ms as nat),
            Action::Finish => Step::Finish,
            Action::Abort(e) => Step::Abort(*e),
        }
    }
}

/// The state of a fetch, apart from the metric family it fills.
pub struct FetchState {
    pub cursor: Option<Seq<char>>,
    /// Rate-limited attempts of the current page.
    pub retries: nat,
    /// Requests issued for the current page.
    pub attempts: nat,
    pub phase: Phase,
}

/// A fetch that starts at `cursor`: its first request is due.
pub open spec fn start(cursor: Option<Seq<char>>) -> FetchState {
    FetchState { cursor, retries: 0, attempts: 1, phase: Phase::Fetching }
}

/// The state that follows `s` when `o` is reported. A report that does not
/// fit the phase changes nothing.
pub open spec fn next(s: FetchState, o: Outcome) -> FetchState {
    match (s.phase, o) {
        (Phase::Fetching, Outcome::Page(c)) => match c {
            None => FetchState { cursor: None, retries: 0, phase: Phase::Done, ..s },
            Some(_) => FetchState { cursor: c, retries: 0, attempts: 1, phase: Phase::Fetching },
        },
        (Phase::Fetching, Outcome::RateLimited) => if s.retries + 1 > MAX_RETRIES {
            FetchState { retries: s.retries + 1, phase: Phase::Failed(Error::TooManyRetries), ..s }
        } else {
            FetchState { retries: s.retries + 1, phase: Phase::Backoff, ..s }
        },
        (Phase::Fetching, Outcome::Failure(e)) => FetchState { phase: Phase::Failed(e), ..s },
        (Phase::Backoff, Outcome::Elapsed) => FetchState {
            attempts: s.attempts + 1,
            phase: Phase::Fetching,
            ..s
        },
        _ => s,
    }
}

/// The state after the reports `os`, in order.
pub open spec fn run(s: FetchState, os: Seq<Outcome>) -> FetchState
    decreases os.len(),
{
    if os.len() == 0 {
        s
    } else {
        next(run(s, os.drop_last()), os.last())
    }
}

/// What a fetch in state `s` asks for.
pub open spec fn step_of(s: FetchState) -> Step {
    match s.phase {
        Phase::Fetching => Step::Request(s.cursor),
        Phase::Backoff => Step::Sleep(backoff_delay(s.retries)),
        Phase::Done => Step::Finish,
        Phase::Failed(e) => Step::Abort(e),
    }
}

/// The counters agree with the phase.
pub open spec fn consistent(s: FetchState) -> bool {
    match s.phase {
        Phase::Fetching => s.retries <= MAX_RETRIES && s.attempts == s.retries + 1,
        Phase::Backoff => 1 <= s.retries <= MAX_RETRIES && s.attempts == s.retries,
        _ => s.retries <= MAX_RETRIES + 1 && s.attempts <= MAX_RETRIES + 1,
    }
}

/// `rows` after a series is set for each of `new`, in order.
pub open spec fn project_rows(rows: Seq<Seq<Seq<char>>>, new: Seq<Seq<Seq<char>>>) -> Seq<Seq<Seq<char>>>
    decreases new.len(),
{
    if new.len() == 0 {
        rows
    } else {
        MetricFamily::rows_after_set(project_rows(rows, new.drop_last()), new.last())
    }
}

/// The label rows of `events`.
pub open spec fn rows_of<E: LabeledEvent>(events: Seq<E>) -> Seq<Seq<Seq<char>>> {
    events.map_values(|e: E| e.label_row())
}

/// The first row whose width is not `width`, or the number of rows.
pub open spec fn first_misfit(rows: Seq<Seq<Seq<char>>>, width: nat) -> nat
    decreases rows.len(),
{
    if rows.len() == 0 {
        0
    } else if rows[0].len() != width {
        0
    } else {
        1 + first_misfit(rows.drop_first(), width)
    }
}

/// The paging loop of one listing: it walks the cursors, retries
/// rate-limited attempts with a growing pause, and projects each event of
/// each page into its metric family.
pub struct Fetcher {
    cursor: Option<String>,
    retries: u32,
    attempts: u32,
    phase: Phase,
    family: MetricFamily,
}

impl View for Fetcher {
    type V = FetchState;

    closed spec fn view(&self) -> FetchState {
        FetchState {
            cursor: opt_view(self.cursor),
            retries: self.retries as nat,
            attempts: self.attempts as nat,
            phase: self.phase,
        }
    }
}

impl Fetcher {
    /// The family being filled.
    pub closed spec fn family_spec(&self) -> MetricFamily {
        self.family
    }

    pub closed spec fn wf(&self) -> bool {
        &&& consistent(self@)
        &&& self.family.wf()
    }

    /// A fetch that starts at `cursor` and fills `family`.
    pub fn new(family: MetricFamily, cursor: Option<String>) -> (r: Fetcher)
        requires
            family.wf(),
        ensures
            r.wf(),
            r@ == start(opt_view(cursor)),
            r.family_spec() == family,
    {
        Fetcher { cursor, retries: 0, attempts: 1, phase: Phase::Fetching, family }
    }

    /// What the driver must do next.
    pub fn action(&self) -> (r: Action)
        requires
            self.wf(),
        ensures
            r@ == step_of(self@),
    {
        match &self.phase {
            Phase::Fetching => Action::Request(self.cursor.clone()),
            Phase::Backoff => Action::Sleep(backoff_ms(self.retries)),
            Phase::Done => Action::Finish,
            Phase::Failed(e) => Action::Abort(e.clone()),
        }
    }

    /// Whether the fetch has stopped, done or failed.
    pub fn is_finished(&self) -> (r: bool)
        ensures
            r == (self@.phase is Done || self@.phase is Failed),
    {
        match &self.phase {
            Phase::Done | Phase::Failed(_) => true,
            _ => false,
        }
    }

    pub fn retries(&self) -> (r: u32)
        ensures
            r == self@.retries,
    {
        self.retries
    }

    pub fn attempts(&self) -> (r: u32)
        ensures
            r == self@.attempts,
    {
        self.attempts
    }

    pub fn cursor(&self) -> (r: &Option<String>)
        ensures
            opt_view(*r) == self@.cursor,
    {
        &self.cursor
    }

    pub fn family(&self) -> (r: &MetricFamily)
        ensures
            *r == self.family_spec(),
    {
        &self.family
    }

    /// Reports a page: its events are projected into the family and the
    /// cursor advances to `next_cursor`. An event whose labels do not fit
    /// the schema aborts the fetch; the series set before it stay.
    pub fn on_page<E: LabeledEvent>(&mut self, events: &Vec<E>, next_cursor: Option<String>) -> (r: Action)
        requires
            old(self).wf(),
        ensures
            final(self).wf(),
            r@ == step_of(final(self)@),
            final(self).family_spec().name_spec() == old(self).family_spec().name_spec(),
            final(self).family_spec().help_spec() == old(self).family_spec().help_spec(),
            final(self).family_spec().names() == old(self).family_spec().names(),
            !(old(self)@.phase is Fetching) ==> final(self)@ == old(self)@ && final(self).family_spec()
                == old(self).family_spec(),
            old(self)@.phase is Fetching ==> ({
                let rows = rows_of(events@);
                let k = first_misfit(rows, old(self).family_spec().names().len());
                if k == rows.len() {
                    &&& final(self)@ == next(old(self)@, Outcome::Page(opt_view(next_cursor)))
                    &&& final(self).family_spec().rows() == project_rows(old(self).family_spec().rows(), rows)
                } else {
                    &&& final(self).family_spec().rows() == project_rows(
                        old(self).family_spec().rows(),
                        rows.take(k as int),
                    )
                    &&& final(self)@.phase is Failed
                    &&& final(self)@.phase->Failed_0 is MetricRegistrationError
                    &&& final(self)@ == next(old(self)@, Outcome::Failure(final(self)@.phase->Failed_0))
                }
            }),
    {
        match self.phase {
            Phase::Fetching => {},
            _ => {
                return self.action();
            },
        }
        let ghost rows = rows_of(events@);
        let ghost width = self.family.names().len();
        let ghost start_rows = self.family.rows();
        let mut i: usize = 0;
        while i < events.len()
            invariant
                self.wf(),
                self.phase is Fetching,
                self@ == old(self)@,
                rows == rows_of(events@),
                width == self.family.names().len(),
                self.family.names() == old(self).family_spec().names(),
                self.family.name_spec() == old(self).family_spec().name_spec(),
                self.family.help_spec() == old(self).family_spec().help_spec(),
                start_rows == old(self).family_spec().rows(),
                i <= events@.len(),
                first_misfit(rows, width) >= i,
                self.family.rows() == project_rows(start_rows, rows.take(i as int)),
            decreases events.len() - i,
        {
            let values = events[i].label_values();
            proof {
                assert(rows[i as int] == events@[i as int].label_row());
                assert(rows.take(i + 1).drop_last() =~= rows.take(i as int));
                assert(rows.take(i + 1).last() == rows[i as int]);
                lemma_first_misfit_misfits(rows, width);
            }
            match self.family.set(&values) {
                Ok(()) => {},
                Err(e) => {
                    proof {
                        lemma_first_misfit_misfits_or_end(rows, width, i as nat);
                    }
                    self.phase = Phase::Failed(e);
                    return self.action();
                },
            }
            i = i + 1;
        }
        proof {
            lemma_first_misfit_misfits(rows, width);
            assert(rows.len() == events@.len());
            assert(rows.take(i as int) =~= rows);
        }
        match next_cursor {
            None => {
                self.cursor = None;
                self.retries = 0;
                self.phase = Phase::Done;
            },
            Some(c) => {
                self.cursor = Some(c);
                self.retries = 0;
                self.attempts = 1;
            },
        }
        self.action()
    }

    /// Reports that the attempt was refused for rate limiting: the same
    /// request is retried after a pause, or, past the retry budget, the fetch
    /// fails with `TooManyRetries`.
    pub fn on_rate_limited(&mut self) -> (r: Action)
        requires
            old(self).wf(),
        ensures
            final(self).wf(),
            final(self)@ == next(old(self)@, Outcome::RateLimited),
            final(self).family_spec() == old(self).family_spec(),
            r@ == step_of(final(self)@),
    {
        if let Phase::Fetching = self.phase {
            self.retries = self.retries + 1;
            if self.retries > MAX_RETRIES {
                self.phase = Phase::Failed(Error::TooManyRetries);
            } else {
                self.phase = Phase::Backoff;
            }
        }
        self.action()
    }

    /// Reports that the pause asked for has elapsed: the same request is due
    /// again.
    pub fn on_elapsed(&mut self) -> (r: Action)
        requires
            old(self).wf(),
        ensures
            final(self).wf(),
            final(self)@ == next(old(self)@, Outcome::Elapsed),
            final(self).family_spec() == old(self).family_spec(),
            r@ == step_of(final(self)@),
    {
        if let Phase::Backoff = self.phase {
            self.attempts = self.attempts + 1;
            self.phase = Phase::Fetching;
        }
        self.action()
    }

    /// Reports a failure other than rate limiting: the fetch stops with it.
    pub fn on_failure(&mut self, err: Error) -> (r: Action)
        requires
            old(self).wf(),
        ensures
            final(self).wf(),
            final(self)@ == next(old(self)@, Outcome::Failure(err)),
            final(self).family_spec() == old(self).family_spec(),
            r@ == step_of(final(self)@),
    {
        if let Phase::Fetching = self.phase {
            self.phase = Phase::Failed(err);
        }
        self.action()
    }

    /// Reports a failed listing call: rate limiting is retried, anything
    /// else stops the fetch with a `ProviderError`.
    pub fn on_provider_failure(&mut self, failure: ProviderFailure) -> (r: Action)
        requires
            old(self).wf(),
        ensures
            final(self).wf(),
            failure.is_rate_limit_spec() ==> final(self)@ == next(old(self)@, Outcome::RateLimited),
            !failure.is_rate_limit_spec() ==> final(self)@ == next(
                old(self)@,
                Outcome::Failure(Error::ProviderError(failure.message)),
            ),
            final(self).family_spec() == old(self).family_spec(),
            r@ == step_of(final(self)@),
    {
        if failure.is_rate_limit() {
            self.on_rate_limited()
        } else {
            self.on_failure(Error::ProviderError(failure.message))
        }
    }

    /// The family as far as it was filled, with the error that stopped the
    /// fetch if one did: the series of the pages before a failure stay.
    pub fn into_parts(self) -> (r: (MetricFamily, Option<Error>))
        requires
            self.wf(),
            self@.phase is Done || self@.phase is Failed,
        ensures
            r.0 == self.family_spec(),
            self@.phase is Done ==> r.1 is None,
            self@.phase is Failed ==> r.1 == Some(self@.phase->Failed_0),
    {
        match self.phase {
            Phase::Failed(e) => (self.family, Some(e)),
            _ => (self.family, None),
        }
    }

    /// The filled family once every page arrived, or the error that stopped
    /// the fetch.
    pub fn into_result(self) -> (r: Result<MetricFamily, Error>)
        requires
            self.wf(),
            self@.phase is Done || self@.phase is Failed,
        ensures
            self@.phase is Done ==> r == Ok::<MetricFamily, Error>(self.family_spec()),
            self@.phase is Failed ==> r == Err::<MetricFamily, Error>(self@.phase->Failed_0),
    {
        match self.phase {
            Phase::Failed(e) => Err(e),
            _ => Ok(self.family),
        }
    }
}

proof fn lemma_first_misfit_is_first(rows: Seq<Seq<Seq<char>>>, width: nat, i: nat)
    requires
        i < first_misfit(rows, width),
    ensures
        i < rows.len(),
        rows[i as int].len() == width,
    decreases rows.len(),
{
    if i > 0 {
        lemma_first_misfit_is_first(rows.drop_first(), width, (i - 1) as nat);
    }
}

proof fn lemma_first_misfit_misfits(rows: Seq<Seq<Seq<char>>>, width: nat)
    ensures
        first_misfit(rows, width) <= rows.len(),
        first_misfit(rows, width) < rows.len() ==> rows[first_misfit(rows, width) as int].len() != width,
    decreases rows.len(),
{
    if rows.len() > 0 && rows[0].len() == width {
        lemma_first_misfit_misfits(rows.drop_first(), width);
    }
}

proof fn lemma_first_misfit_misfits_or_end(rows: Seq<Seq<Seq<char>>>, width: nat, i: nat)
    requires
        i < rows.len(),
        first_misfit(rows, width) >= i,
        rows[i as int].len() != width,
    ensures
        first_misfit(rows, width) == i,
{
    lemma_first_misfit_misfits(rows, width);
    if first_misfit(rows, width) > i {
        lemma_first_misfit_is_first(rows, width, i);
    }
}

proof fn lemma_run_push(s: FetchState, os: Seq<Outcome>, o: Outcome)
    ensures
        run(s, os.push(o)) == next(run(s, os), o),
{
    assert(os.push(o).drop_last() =~= os);
}

/// A run of reports never takes the counters out of step with the phase.
pub proof fn lemma_run_consistent(s: FetchState, os: Seq<Outcome>)
    requires
        consistent(s),
    ensures
        consistent(run(s, os)),
    decreases os.len(),
{
    if os.len() > 0 {
        lemma_run_consistent(s, os.drop_last());
    }
}

/// Once a page arrives without a cursor the fetch is done: it asks for no
/// further request, whatever is reported afterwards.
pub proof fn lemma_last_page_ends_fetch(s: FetchState, os: Seq<Outcome>)
    requires
        s.phase is Fetching,
    ensures
        next(s, Outcome::Page(None)).phase is Done,
        run(next(s, Outcome::Page(None)), os) == next(s, Outcome::Page(None)),
        step_of(run(next(s, Outcome::Page(None)), os)) == Step::Finish,
    decreases os.len(),
{
    if os.len() > 0 {
        lemma_last_page_ends_fetch(s, os.drop_last());
    }
}

/// `n` rate-limit refusals of one page, each followed by the pause it asked for.
pub open spec fn throttled(n: nat) -> Seq<Outcome>
    decreases n,
{
    if n == 0 {
        Seq::empty()
    } else {
        throttled((n - 1) as nat).push(Outcome::RateLimited).push(Outcome::Elapsed)
    }
}

proof fn lemma_throttled_state(c: Option<Seq<char>>, k: nat)
    requires
        k <= MAX_RETRIES,
    ensures
        run(start(c), throttled(k)) == (FetchState {
            cursor: c,
            retries: k,
            attempts: k + 1,
            phase: Phase::Fetching,
        }),
    decreases k,
{
    if k > 0 {
        let before = throttled((k - 1) as nat);
        lemma_throttled_state(c, (k - 1) as nat);
        lemma_run_push(start(c), before, Outcome::RateLimited);
        lemma_run_push(start(c), before.push(Outcome::RateLimited), Outcome::Elapsed);
    }
}

/// A page refused for rate limiting `n <= 10` times and then served: the
/// `k`-th refusal asks for a pause of `50ms * 2^k`, every retry requests the
/// same cursor, and the page then goes through after exactly `n` retries,
/// with the retry counter back at zero.
pub proof fn lemma_retries_then_success(c: Option<Seq<char>>, n: nat, next_cursor: Option<Seq<char>>)
    requires
        n <= MAX_RETRIES,
    ensures
        forall|k: nat|
            1 <= k <= n ==> step_of(#[trigger] run(start(c), throttled((k - 1) as nat).push(Outcome::RateLimited)))
                == Step::Sleep(backoff_delay(k)),
        forall|k: nat| k <= n ==> step_of(#[trigger] run(start(c), throttled(k))) == Step::Request(c),
        run(start(c), throttled(n)).retries == n,
        run(start(c), throttled(n)).attempts == n + 1,
        next(run(start(c), throttled(n)), Outcome::Page(next_cursor)).retries == 0,
        next_cursor is None ==> next(run(start(c), throttled(n)), Outcome::Page(next_cursor)).phase is Done,
        next_cursor is Some ==> next(run(start(c), throttled(n)), Outcome::Page(next_cursor)) == start(next_cursor),
{
    assert forall|k: nat|
        1 <= k <= n implies step_of(#[trigger] run(start(c), throttled((k - 1) as nat).push(Outcome::RateLimited)))
            == Step::Sleep(backoff_delay(k)) by {
        lemma_throttled_state(c, (k - 1) as nat);
        lemma_run_push(start(c), throttled((k - 1) as nat), Outcome::RateLimited);
    }
    assert forall|k: nat| k <= n implies step_of(#[trigger] run(start(c), throttled(k))) == Step::Request(c) by {
        lemma_throttled_state(c, k);
    }
    lemma_throttled_state(c, n);
}

/// Eleven straight refusals of one page end the fetch with `TooManyRetries`
/// after eleven requests, and further refusals change nothing; no run of
/// reports issues more than eleven requests for one page.
pub proof fn lemma_retry_budget(c: Option<Seq<char>>, os: Seq<Outcome>)
    ensures
        run(start(c), throttled(MAX_RETRIES as nat).push(Outcome::RateLimited)).phase == Phase::Failed(
            Error::TooManyRetries,
        ),
        run(start(c), throttled(MAX_RETRIES as nat).push(Outcome::RateLimited)).attempts == MAX_RETRIES + 1,
        step_of(run(start(c), throttled(MAX_RETRIES as nat).push(Outcome::RateLimited))) == Step::Abort(
            Error::TooManyRetries,
        ),
        run(run(start(c), throttled(MAX_RETRIES as nat).push(Outcome::RateLimited)), os)
            == run(start(c), throttled(MAX_RETRIES as nat).push(Outcome::RateLimited)),
        run(start(c), os).attempts <= MAX_RETRIES + 1,
{
    let t = throttled(MAX_RETRIES as nat);
    lemma_throttled_state(c, MAX_RETRIES as nat);
    lemma_run_push(start(c), t, Outcome::RateLimited);
    lemma_failed_stays(run(start(c), t.push(Outcome::RateLimited)), os);
    lemma_run_consistent(start(c), os);
}

proof fn lemma_failed_stays(s: FetchState, os: Seq<Outcome>)
    requires
        s.phase is Failed,
    ensures
        run(s, os) == s,
    decreases os.len(),
{
    if os.len() > 0 {
        lemma_failed_stays(s, os.drop_last());
    }
}

} // verus!
