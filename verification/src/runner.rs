//! The runner drives one action through its lifecycle — optional setup, a
//! warmup loop whose results are diagnostic only, then a measured loop —
//! and records one [`Stats`] observation per measured repetition.  A setup
//! failure aborts the whole action; warmup and measured failures are
//! collected and never stop a loop.

use vstd::prelude::*;
use vstd::string::*;
use crate::action::Action;
use crate::clock::{elapsed_nanos, monotonic_now, wall_clock_millis};
use crate::config::Config;
use crate::error::{Error, Kind};
use crate::http::{is_success_code, status_message, ClientError, Elasticsearch, HttpResponse};
use crate::text::dec_digits;

verus! {

/// The binary classification of one measured repetition.
#[derive(Clone, Copy, PartialEq, Eq, Structural, Debug)]
pub enum Outcome {
    Success,
    Failure,
}

impl Outcome {
    /// The label text of the classification.
    pub fn label(&self) -> (s: String)
        ensures
            self is Success ==> s@ == "success"@,
            self is Failure ==> s@ == "failure"@,
    {
        match self {
            Outcome::Success => String::from_str("success"),
            Outcome::Failure => String::from_str("failure"),
        }
    }
}

/// One observation per measured repetition.
#[derive(Debug)]
pub struct Stats {
    /// Wall-clock start of the invocation, in milliseconds since the epoch.
    pub start: i64,
    /// Elapsed monotonic time of the invocation, in nanoseconds.
    pub duration: u128,
    /// The outcome classification.
    pub outcome: Outcome,
    /// The status code, present only if a response was received.
    pub status_code: Option<u16>,
}

/// What the measurement hook reported for one invocation, as specification
/// data: the status code of a received response, or the message of a
/// transport failure.
pub enum Observation {
    Status(u16),
    Transport(Seq<char>),
}

/// Whether one statistics record reflects what the hook reported: a
/// received response pins the status code and classifies by the success
/// range; a transport failure leaves no status code and is a failure.
pub open spec fn record_matches(s: Stats, ob: Observation) -> bool {
    match ob {
        Observation::Status(c) => s.status_code == Some(c) && s.outcome == (if is_success_code(c) {
            Outcome::Success
        } else {
            Outcome::Failure
        }),
        Observation::Transport(_) => s.status_code is None && s.outcome == Outcome::Failure,
    }
}

/// The failure message of one invocation, if it failed: a response whose
/// status denotes failure turns into the status error's text, a transport
/// failure keeps its own message.
pub open spec fn failure_message(ob: Observation) -> Option<Seq<char>> {
    match ob {
        Observation::Status(c) => if is_success_code(c) {
            Option::None
        } else {
            Option::Some(status_message(c))
        },
        Observation::Transport(m) => Option::Some(m),
    }
}

/// A failure message tagged with its loop and 0-based index:
/// `"<tag><i>: <message>"`.
pub open spec fn tagged(tag: Seq<char>, i: int, m: Seq<char>) -> Seq<char> {
    tag + dec_digits(i as nat) + ": "@ + m
}

/// The tagged messages one loop contributes, in invocation order.
pub open spec fn phase_errors(tag: Seq<char>, obs: Seq<Observation>) -> Seq<Seq<char>>
    decreases obs.len(),
{
    if obs.len() == 0 {
        Seq::empty()
    } else {
        phase_errors(tag, obs.drop_last()) + (match failure_message(obs.last()) {
            Option::Some(m) => seq![tagged(tag, obs.len() - 1, m)],
            Option::None => Seq::empty(),
        })
    }
}

/// All error messages one run records: the warmup loop's, then the
/// measured loop's, each indexed from zero.
pub open spec fn run_errors(obs: Seq<Observation>, w: int) -> Seq<Seq<char>> {
    phase_errors("warmup "@, obs.take(w)) + phase_errors("run "@, obs.skip(w))
}

/// The capability one benchmarked operation implements so the runner can
/// drive it: an optional one-shot setup, and the measurement hook that
/// performs one invocation against the target.  `calls` counts, in
/// specification terms, how often the measurement hook has run.
pub trait Measure: Sized {
    open spec fn calls(&self) -> nat {
        0
    }

    /// The one-shot setup: `None` when the operation defines none, else
    /// the outcome of running it once.  It does not count as a
    /// measurement call.
    fn setup(&mut self, client: &Elasticsearch) -> (r: Option<
        Result<HttpResponse, ClientError>,
    >)
        ensures
            final(self).calls() == old(self).calls(),
    ;

    /// One invocation against the target: a response, or a transport
    /// error.  A hook that can cancel honors the deadline, in
    /// milliseconds, cooperatively.
    fn measure(&mut self, i: i32, client: &Elasticsearch, timeout_millis: Option<u64>) -> (r:
        Result<HttpResponse, ClientError>)
        ensures
            final(self).calls() == old(self).calls() + 1,
    ;
}

/// One scripted step for a replay hook: a response with the given status
/// code, or a transport failure with the given message.
#[derive(Debug, Clone)]
pub enum ScriptStep {
    Respond(u16),
    Fail(String),
}

/// What a replay hook's setup does: nothing (no setup defined), succeed
/// with a response of the given status, or fail with the given message.
#[derive(Debug)]
pub enum SetupScript {
    NoSetup,
    SetupOk(u16),
    SetupFail(String),
}

/// A deterministic hook that replays a fixed script: the `i`-th
/// measurement call gets the script's `i`-th entry, and calls past the
/// script's end report a transport failure.  It drives an action without
/// a live service.
pub struct ReplayMeasure {
    pub setup_script: SetupScript,
    pub script: Vec<ScriptStep>,
    pub pos: usize,
    pub count: Ghost<nat>,
}

impl ReplayMeasure {
    /// A replay hook at the start of its script.
    pub fn new(setup_script: SetupScript, script: Vec<ScriptStep>) -> (m: ReplayMeasure)
        ensures
            m.setup_script == setup_script,
            m.script == script,
            m.pos == 0,
            m.calls() == 0,
    {
        ReplayMeasure { setup_script, script, pos: 0, count: Ghost(0nat) }
    }

    /// How far into the script the hook has advanced.
    pub fn position(&self) -> (p: usize)
        ensures
            p == self.pos,
    {
        self.pos
    }
}

impl Measure for ReplayMeasure {
    open spec fn calls(&self) -> nat {
        self.count@
    }

    fn setup(&mut self, _client: &Elasticsearch) -> (r: Option<
        Result<HttpResponse, ClientError>,
    >) {
        match &self.setup_script {
            SetupScript::NoSetup => None,
            SetupScript::SetupOk(status) => Some(Ok(HttpResponse::new(*status))),
            SetupScript::SetupFail(m) => Some(Err(ClientError::new(m.clone()))),
        }
    }

    fn measure(&mut self, _i: i32, _client: &Elasticsearch, _timeout_millis: Option<u64>) -> (r:
        Result<HttpResponse, ClientError>) {
        let out = if self.pos < self.script.len() {
            let step_result = match &self.script[self.pos] {
                ScriptStep::Respond(c) => Ok(HttpResponse::new(*c)),
                ScriptStep::Fail(m) => Err(ClientError::new(m.clone())),
            };
            self.pos = self.pos + 1;
            step_result
        } else {
            Err(ClientError::new(String::from_str("script exhausted")))
        };
        proof {
            self.count@ = self.count@ + 1;
        }
        out
    }
}

/// The runner's contract: how the records, the observations and the
/// result of one run relate.
pub open spec fn run_post(
    action: Action,
    old_stats: Seq<Stats>,
    new_stats: Seq<Stats>,
    obs: Seq<Observation>,
    r: Result<(), Error>,
) -> bool {
    let w = action.warmups as int;
    let reps = action.repetitions as int;
    match r {
        Result::Ok(()) => {
            &&& obs.len() == w + reps
            &&& new_stats.len() == old_stats.len() + reps
            &&& new_stats.take(old_stats.len() as int) == old_stats
            &&& forall|j: int|
                0 <= j < reps ==> record_matches(
                    #[trigger] new_stats[old_stats.len() + j],
                    obs[w + j],
                )
            &&& run_errors(obs, w).len() == 0
        },
        Result::Err(e) => match e.kind {
            Kind::Response(_) => obs.len() == 0 && new_stats == old_stats,
            Kind::Run(msgs) => {
                &&& obs.len() == w + reps
                &&& new_stats.len() == old_stats.len() + reps
                &&& new_stats.take(old_stats.len() as int) == old_stats
                &&& forall|j: int|
                    0 <= j < reps ==> record_matches(
                        #[trigger] new_stats[old_stats.len() + j],
                        obs[w + j],
                    )
                &&& msgs.deep_view() == run_errors(obs, w)
                &&& run_errors(obs, w).len() > 0
            },
            Kind::Config(_) => false,
        },
    }
}

fn tag_message(tag: &str, i: i32, msg: &str) -> (s: String)
    requires
        i >= 0,
    ensures
        s@ == tag@ + dec_digits(i as nat) + ": "@ + msg@,
{
    let mut s = String::from_str(tag);
    let d = crate::text::render_u64(i as u64);
    s.append(d.as_str());
    s.append(": ");
    s.append(msg);
    s
}

/// Drives one action's lifecycle against the validated configuration and
/// owns the records the measured loop produces.
pub struct Runner<'a> {
    pub config: &'a Config,
    pub stats: Vec<Stats>,
    pub action: &'a Action,
    /// What the hook reported, invocation by invocation, in the last run.
    pub observed: Ghost<Seq<Observation>>,
}

impl<'a> Runner<'a> {
    /// A fresh runner for one action.
    pub fn new(config: &'a Config, action: &'a Action) -> (r: Runner<'a>)
        ensures
            r.config == config,
            r.action == action,
            r.stats@ =~= Seq::<Stats>::empty(),
            r.observed@ =~= Seq::<Observation>::empty(),
    {
        Runner { config, stats: Vec::new(), action, observed: Ghost(Seq::empty()) }
    }

    /// The records so far, one per measured repetition.
    pub fn stats(&self) -> (s: &Vec<Stats>)
        ensures
            s == &self.stats,
    {
        &self.stats
    }

    /// Runs the lifecycle once: optional setup, `warmups` diagnostic
    /// invocations, then `repetitions` measured invocations, each recorded
    /// whatever its outcome.  The result is `Ok` exactly when no
    /// invocation failed; a setup failure aborts the action before any
    /// invocation and surfaces as a response error; otherwise the recorded
    /// failure messages come back as a run error, in occurrence order.
    pub fn run<M: Measure>(&mut self, hook: &mut M) -> (r: Result<(), Error>)
        requires
            old(self).action.wf(),
        ensures
            final(self).config == old(self).config,
            final(self).action == old(self).action,
            final(hook).calls() == old(hook).calls() + final(self).observed@.len(),
            run_post(
                *old(self).action,
                old(self).stats@,
                final(self).stats@,
                final(self).observed@,
                r,
            ),
    {
        let ghost old_stats = self.stats@;
        let ghost calls0 = hook.calls();
        let config = self.config;
        let client = config.runner_client();
        self.observed = Ghost(Seq::empty());
        match hook.setup(client) {
            Option::Some(setup_result) => match setup_result {
                Result::Ok(_) => {},
                Result::Err(e) => {
                    return Err(Error::from(e));
                },
            },
            Option::None => {},
        }
        let mut errors: Vec<String> = Vec::new();
        let warmups = self.action.warmups;
        let repetitions = self.action.repetitions;
        let timeout_millis = self.action.timeout_millis;
        let mut i: i32 = 0;
        proof {
            assert(errors.deep_view() =~= phase_errors("warmup "@, self.observed@));
        }
        while i < warmups
            invariant
                self.action == old(self).action,
                self.config == old(self).config,
                self.stats@ == old_stats,
                warmups == self.action.warmups,
                0 <= i <= warmups,
                self.observed@.len() == i as nat,
                hook.calls() == calls0 + self.observed@.len(),
                errors.deep_view() == phase_errors("warmup "@, self.observed@),
            decreases warmups - i,
        {
            let ghost pre = self.observed@;
            let ghost pre_errors = errors.deep_view();
            match hook.measure(i, client, timeout_millis) {
                Result::Ok(resp) => {
                    proof {
                        self.observed@ = pre.push(Observation::Status(resp.status));
                    }
                    match resp.error_for_status_code() {
                        Result::Ok(_) => {},
                        Result::Err(e) => {
                            errors.push(tag_message("warmup ", i, e.message.as_str()));
                        },
                    }
                },
                Result::Err(e) => {
                    proof {
                        self.observed@ = pre.push(Observation::Transport(e.message@));
                    }
                    errors.push(tag_message("warmup ", i, e.message.as_str()));
                },
            }
            proof {
                let ob = self.observed@.last();
                assert(self.observed@.drop_last() =~= pre);
                assert(errors.deep_view() =~= pre_errors + (match failure_message(ob) {
                    Option::Some(m) => seq![tagged("warmup "@, pre.len() as int, m)],
                    Option::None => Seq::<Seq<char>>::empty(),
                }));
            }
            i += 1;
        }
        let ghost warm_obs = self.observed@;
        let mut i: i32 = 0;
        proof {
            assert(warm_obs.take(warmups as int) =~= warm_obs);
            assert(warm_obs.skip(warmups as int) =~= Seq::<Observation>::empty());
            assert(errors.deep_view() =~= run_errors(self.observed@, warmups as int));
            assert(self.stats@.take(old_stats.len() as int) =~= old_stats);
        }
        while i < repetitions
            invariant
                self.action == old(self).action,
                self.config == old(self).config,
                warmups == self.action.warmups,
                repetitions == self.action.repetitions,
                warmups >= 0,
                0 <= i <= repetitions,
                self.observed@.len() == warmups + i,
                self.observed@.take(warmups as int) == warm_obs,
                self.stats@.len() == old_stats.len() + i,
                self.stats@.take(old_stats.len() as int) == old_stats,
                forall|j: int|
                    0 <= j < i ==> record_matches(
                        #[trigger] self.stats@[old_stats.len() + j],
                        self.observed@[warmups + j],
                    ),
                hook.calls() == calls0 + self.observed@.len(),
                errors.deep_view() == run_errors(self.observed@, warmups as int),
            decreases repetitions - i,
        {
            let start = wall_clock_millis();
            let instant = monotonic_now();
            let result = hook.measure(i, client, timeout_millis);
            let duration = elapsed_nanos(&instant);
            let ghost pre = self.observed@;
            let ghost pre_errors = errors.deep_view();
            match result {
                Result::Ok(resp) => {
                    proof {
                        self.observed@ = pre.push(Observation::Status(resp.status));
                    }
                    let status_code = Some(resp.status_code());
                    match resp.error_for_status_code() {
                        Result::Ok(_) => {
                            self.stats.push(
                                Stats { start, duration, outcome: Outcome::Success, status_code },
                            );
                        },
                        Result::Err(e) => {
                            errors.push(tag_message("run ", i, e.message.as_str()));
                            self.stats.push(
                                Stats { start, duration, outcome: Outcome::Failure, status_code },
                            );
                        },
                    }
                },
                Result::Err(e) => {
                    proof {
                        self.observed@ = pre.push(Observation::Transport(e.message@));
                    }
                    errors.push(tag_message("run ", i, e.message.as_str()));
                    self.stats.push(
                        Stats { start, duration, outcome: Outcome::Failure, status_code: None },
                    );
                },
            }
            proof {
                let ob = self.observed@.last();
                assert(self.observed@.take(warmups as int) =~= warm_obs);
                assert(self.observed@.skip(warmups as int).drop_last() =~= pre.skip(
                    warmups as int,
                ));
                assert(self.observed@.skip(warmups as int).last() == ob);
                assert(self.observed@.skip(warmups as int).len() == i + 1);
                assert(errors.deep_view() =~= pre_errors + (match failure_message(ob) {
                    Option::Some(m) => seq![tagged("run "@, i as int, m)],
                    Option::None => Seq::<Seq<char>>::empty(),
                }));
                assert(run_errors(self.observed@, warmups as int) =~= run_errors(
                    pre,
                    warmups as int,
                ) + (match failure_message(ob) {
                    Option::Some(m) => seq![tagged("run "@, i as int, m)],
                    Option::None => Seq::<Seq<char>>::empty(),
                }));
                assert(self.stats@.take(old_stats.len() as int) =~= old_stats);
                assert(self.stats@.last() == self.stats@[old_stats.len() + i]);
            }
            i += 1;
        }
        if errors.len() == 0 {
            proof {
                assert(run_errors(self.observed@, warmups as int).len() == errors.deep_view().len());
                assert(self.stats@.take(old_stats.len() as int) == old_stats);
            }
            Ok(())
        } else {
            let e = Error::run(errors);
            proof {
                assert(self.stats@.take(old_stats.len() as int) == old_stats);
            }
            Err(e)
        }
    }
}

// ---------------------------------------------------------------------------
// Laws of the lifecycle
// ---------------------------------------------------------------------------

/// For any action with warmups `w` and repetitions `r` whose setup did not
/// fail, one run invokes the measurement hook exactly `w + r` times and
/// produces exactly `r` records, however many invocations failed.
pub proof fn lemma_run_counts(
    action: Action,
    old_stats: Seq<Stats>,
    new_stats: Seq<Stats>,
    obs: Seq<Observation>,
    r: Result<(), Error>,
)
    requires
        action.wf(),
        run_post(action, old_stats, new_stats, obs, r),
        match r {
            Result::Ok(()) => true,
            Result::Err(e) => !(e.kind is Response),
        },
    ensures
        obs.len() == action.warmups + action.repetitions,
        new_stats.len() == old_stats.len() + action.repetitions,
{
}

/// Outcome classification: a record's outcome is success exactly when a
/// response was received whose status code lies in the success range; a
/// transport failure yields a failure record with no status code.
pub proof fn lemma_outcome_classification(s: Stats, ob: Observation)
    requires
        record_matches(s, ob),
    ensures
        s.outcome is Success <==> (ob matches Observation::Status(c) && is_success_code(c)),
        ob is Transport ==> s.outcome is Failure && s.status_code is None,
{
}

proof fn lemma_phase_errors_empty(tag: Seq<char>, obs: Seq<Observation>)
    requires
        phase_errors(tag, obs).len() == 0,
    ensures
        forall|k: int| 0 <= k < obs.len() ==> failure_message(#[trigger] obs[k]) is None,
    decreases obs.len(),
{
    if obs.len() > 0 {
        lemma_phase_errors_empty(tag, obs.drop_last());
        assert(forall|k: int| 0 <= k < obs.len() - 1 ==> obs.drop_last()[k] == obs[k]);
        assert(obs[obs.len() - 1] == obs.last());
    }
}

/// A run that reports success measured only successful invocations: every
/// record it appended is a success carrying a status code in the success
/// range.
pub proof fn lemma_ok_run_all_success(
    action: Action,
    old_stats: Seq<Stats>,
    new_stats: Seq<Stats>,
    obs: Seq<Observation>,
    r: Result<(), Error>,
)
    requires
        action.wf(),
        run_post(action, old_stats, new_stats, obs, r),
        r is Ok,
    ensures
        forall|j: int|
            old_stats.len() <= j < new_stats.len() ==> (#[trigger] new_stats[j]).outcome
                is Success && new_stats[j].status_code is Some,
{
    let w = action.warmups as int;
    lemma_phase_errors_empty("run "@, obs.skip(w));
    assert forall|j: int|
        old_stats.len() <= j < new_stats.len() implies (#[trigger] new_stats[j]).outcome
        is Success && new_stats[j].status_code is Some by {
        let k = j - old_stats.len();
        assert(record_matches(new_stats[old_stats.len() + k], obs[w + k]));
        assert(obs.skip(w)[k] == obs[w + k]);
        assert(failure_message(obs[w + k]) is None);
    }
}

/// Idempotence: two runs of the same action from a fresh runner each
/// produce one record per repetition, so the two record sequences have
/// equal length; durations, as unsigned nanosecond counts, are never
/// negative.
pub proof fn lemma_repeat_run_lengths(
    action: Action,
    stats1: Seq<Stats>,
    obs1: Seq<Observation>,
    r1: Result<(), Error>,
    stats2: Seq<Stats>,
    obs2: Seq<Observation>,
    r2: Result<(), Error>,
)
    requires
        action.wf(),
        run_post(action, Seq::empty(), stats1, obs1, r1),
        run_post(action, Seq::empty(), stats2, obs2, r2),
        r1 is Ok,
        r2 is Ok,
    ensures
        stats1.len() == stats2.len(),
        forall|j: int| 0 <= j < stats1.len() ==> #[trigger] stats1[j].duration >= 0,
{
}

} // verus!
