//! The descriptor of one benchmarked operation, name-based filtering, and
//! the fixed catalog of operations one benchmark pass executes.

use vstd::prelude::*;
use vstd::string::*;
use crate::config::Config;
use crate::text::{contains_str, is_substring};

verus! {

/// An immutable descriptor of one benchmarked operation.  The hooks that
/// perform the operation live behind the runner's capability interface;
/// the descriptor itself is pure data.
#[derive(Debug)]
pub struct Action {
    /// The unique name, used for filtering and for labelling output.
    pub action: String,
    /// Optional category override; falls back to the process-wide default.
    pub category: Option<String>,
    /// Optional environment override; falls back to the configuration's.
    pub environment: Option<String>,
    /// How many diagnostic warmup invocations precede the measured ones.
    pub warmups: i32,
    /// How many measured repetitions run.
    pub repetitions: i32,
    /// Optional units of work per repetition; defaults to 1.
    pub operations: Option<i32>,
    /// Optional per-invocation deadline, in milliseconds.  The runner hands
    /// it to the measurement hook, which honors it cooperatively; without
    /// one a hung invocation blocks the run.
    pub timeout_millis: Option<u64>,
}

/// The override when present, else the fallback.
pub open spec fn resolved(over: Option<Seq<char>>, fallback: Seq<char>) -> Seq<char> {
    match over {
        Option::Some(s) => s,
        Option::None => fallback,
    }
}

impl Action {
    /// Well-formedness: the loop counts are non-negative.
    pub open spec fn wf(self) -> bool {
        self.warmups >= 0 && self.repetitions >= 0
    }

    /// A new action descriptor.
    pub fn new(
        action: String,
        category: Option<String>,
        environment: Option<String>,
        warmups: i32,
        repetitions: i32,
        operations: Option<i32>,
    ) -> (a: Action)
        requires
            warmups >= 0,
            repetitions >= 0,
        ensures
            a == (Action {
                action,
                category,
                environment,
                warmups,
                repetitions,
                operations,
                timeout_millis: None,
            }),
            a.wf(),
    {
        Action {
            action,
            category,
            environment,
            warmups,
            repetitions,
            operations,
            timeout_millis: None,
        }
    }

    /// The same action with a per-invocation deadline.
    pub fn with_timeout(self, timeout_millis: u64) -> (a: Action)
        ensures
            a == (Action { timeout_millis: Some(timeout_millis), ..self }),
    {
        let mut a = self;
        a.timeout_millis = Some(timeout_millis);
        a
    }

    /// The category override, if any.
    pub fn category(&self) -> (c: Option<&str>)
        ensures
            match self.category {
                Option::Some(s) => c matches Some(cs) && cs@ == s@,
                Option::None => c is None,
            },
    {
        match &self.category {
            Option::Some(s) => Some(s.as_str()),
            Option::None => None,
        }
    }

    /// The environment override, if any.
    pub fn environment(&self) -> (e: Option<&str>)
        ensures
            match self.environment {
                Option::Some(s) => e matches Some(es) && es@ == s@,
                Option::None => e is None,
            },
    {
        match &self.environment {
            Option::Some(s) => Some(s.as_str()),
            Option::None => None,
        }
    }

    /// The category label this action's records carry: the override, or the
    /// process-wide default.
    pub fn resolved_category(&self, default: &str) -> (s: String)
        ensures
            s@ == resolved(self.category.deep_view(), default@),
    {
        match &self.category {
            Option::Some(c) => c.clone(),
            Option::None => String::from_str(default),
        }
    }

    /// The environment label this action's records carry: the override, or
    /// the configuration's environment.
    pub fn resolved_environment(&self, config: &Config) -> (s: String)
        ensures
            s@ == resolved(self.environment.deep_view(), config.environment@),
    {
        match &self.environment {
            Option::Some(e) => e.clone(),
            Option::None => String::from_str(config.environment()),
        }
    }

    /// Units of work per repetition; 1 when none is given.
    pub fn operations(&self) -> (n: i32)
        ensures
            n == (match self.operations {
                Option::Some(k) => k,
                Option::None => 1i32,
            }),
    {
        match self.operations {
            Option::Some(k) => k,
            Option::None => 1,
        }
    }
}

/// Whether the filter skips this action: true exactly when the action's
/// name occurs in the filter text.  A non-empty name is never found in an
/// empty filter, so an empty filter skips nothing.
pub fn should_skip(action: &Action, filter: &str) -> (r: bool)
    ensures
        r == is_substring(action.action@, filter@),
{
    contains_str(filter, action.action.as_str())
}

/// The ordered, fixed catalog of operations one benchmark pass executes.
#[derive(Debug)]
pub struct Benchmarks {
    pub operations: Vec<Action>,
}

impl Benchmarks {
    /// The standard catalog: the ping operation, then the index operation.
    pub fn new() -> (b: Benchmarks)
        ensures
            b.operations@.len() == 2,
            b.operations@[0].action@ == "ping"@,
            b.operations@[0].warmups == 100,
            b.operations@[0].repetitions == 10000,
            b.operations@[0].wf(),
            b.operations@[1].action@ == "index"@,
            b.operations@[1].warmups == 100,
            b.operations@[1].repetitions == 10000,
            b.operations@[1].wf(),
    {
        let ping = Action::new(String::from_str("ping"), None, None, 100, 10000, None);
        let index = Action::new(String::from_str("index"), None, None, 100, 10000, None);
        let mut operations: Vec<Action> = Vec::new();
        operations.push(ping);
        operations.push(index);
        Benchmarks { operations }
    }
}

} // verus!
