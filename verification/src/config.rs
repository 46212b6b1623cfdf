//! Validation of the fixed set of named configuration inputs, and the
//! configuration that is assembled once every input passes.
//!
//! Every required input is checked independently for presence and
//! non-emptiness; all violations are collected, and a failed validation
//! reports them joined line by line, in the enumeration order of the
//! required-input list.  A partially populated configuration is never
//! constructed.

use vstd::prelude::*;
use vstd::string::*;
use crate::error::{Error, Kind};
use crate::http::{Elasticsearch, Transport};
use crate::record;
use crate::text::{
    all_sep_free, count_char, join_strings, join_with, lemma_all_sep_free_concat,
    lemma_count_char_concat, lemma_count_char_zero, lemma_join_separator_count,
};

verus! {

/// The raw named inputs, each present or absent as the environment had it.
#[derive(Debug)]
pub struct EnvInputs {
    pub build_id: Option<String>,
    pub data_source: Option<String>,
    pub client_branch: Option<String>,
    pub client_commit: Option<String>,
    pub environment: Option<String>,
    pub target_url: Option<String>,
    pub report_url: Option<String>,
    pub service_type: Option<String>,
    pub service_name: Option<String>,
    pub service_version: Option<String>,
    pub os_family: Option<String>,
}

/// Whether one input violates the rule that it be present and non-empty.
pub open spec fn is_invalid(v: Option<Seq<char>>) -> bool {
    match v {
        Option::None => true,
        Option::Some(s) => s.len() == 0,
    }
}

/// The violation messages of one input: one message when it is missing,
/// one when it is present but empty, none otherwise.
pub open spec fn violation(key: Seq<char>, v: Option<Seq<char>>) -> Seq<Seq<char>> {
    match v {
        Option::None => seq![key + " environment variable not found"@],
        Option::Some(s) => if s.len() == 0 {
            seq![key + " environment variable is empty"@]
        } else {
            Seq::empty()
        },
    }
}

/// 1 when the input is missing or empty, 0 otherwise.
pub open spec fn ind(v: Option<Seq<char>>) -> nat {
    if is_invalid(v) {
        1nat
    } else {
        0nat
    }
}

/// All violation messages, in the enumeration order of the required inputs.
pub open spec fn violations(inputs: EnvInputs) -> Seq<Seq<char>> {
    violation("BUILD_ID"@, inputs.build_id.deep_view()) + violation(
        "DATA_SOURCE"@,
        inputs.data_source.deep_view(),
    ) + violation("CLIENT_BRANCH"@, inputs.client_branch.deep_view()) + violation(
        "CLIENT_COMMIT"@,
        inputs.client_commit.deep_view(),
    ) + violation("CLIENT_BENCHMARK_ENVIRONMENT"@, inputs.environment.deep_view()) + violation(
        "ELASTICSEARCH_TARGET_URL"@,
        inputs.target_url.deep_view(),
    ) + violation("ELASTICSEARCH_REPORT_URL"@, inputs.report_url.deep_view()) + violation(
        "TARGET_SERVICE_TYPE"@,
        inputs.service_type.deep_view(),
    ) + violation("TARGET_SERVICE_NAME"@, inputs.service_name.deep_view()) + violation(
        "TARGET_SERVICE_VERSION"@,
        inputs.service_version.deep_view(),
    ) + violation("TARGET_SERVICE_OS_FAMILY"@, inputs.os_family.deep_view())
}

/// How many of the required inputs are missing or empty.
pub open spec fn invalid_count(inputs: EnvInputs) -> nat {
    ind(inputs.build_id.deep_view()) + ind(inputs.data_source.deep_view()) + ind(
        inputs.client_branch.deep_view(),
    ) + ind(inputs.client_commit.deep_view()) + ind(inputs.environment.deep_view()) + ind(
        inputs.target_url.deep_view(),
    ) + ind(inputs.report_url.deep_view()) + ind(inputs.service_type.deep_view()) + ind(
        inputs.service_name.deep_view(),
    ) + ind(inputs.service_version.deep_view()) + ind(inputs.os_family.deep_view())
}

/// The value of an input that passed validation.
pub open spec fn given(v: Option<Seq<char>>) -> Seq<char> {
    match v {
        Option::Some(s) => s,
        Option::None => Seq::empty(),
    }
}

/// The validated process-wide configuration.  It exists only if every
/// required input was present and non-empty.
#[derive(Debug)]
pub struct Config {
    pub build_id: String,
    pub environment: String,
    pub target: record::Target,
    pub runner: record::Runner,
    pub runner_client: Elasticsearch,
    pub report_client: Elasticsearch,
}

/// How a successfully assembled configuration relates to the inputs.
pub open spec fn config_matches(c: Config, inputs: EnvInputs, rustc_version: Seq<char>) -> bool {
    &&& c.build_id@ == given(inputs.build_id.deep_view())
    &&& c.environment@ == given(inputs.environment.deep_view())
    &&& c.target.service.ty@ == given(inputs.service_type.deep_view())
    &&& c.target.service.name@ == given(inputs.service_name.deep_view())
    &&& c.target.service.version@ == given(inputs.service_version.deep_view())
    &&& c.target.service.git.branch@ == given(inputs.client_branch.deep_view())
    &&& c.target.service.git.commit@ == given(inputs.client_commit.deep_view())
    &&& c.target.os.family@ == given(inputs.os_family.deep_view())
    &&& c.runner.service.ty@ == given(inputs.service_type.deep_view())
    &&& c.runner.service.name@ == given(inputs.service_name.deep_view())
    &&& c.runner.service.version@ == given(inputs.service_version.deep_view())
    &&& c.runner.service.git.branch@ == given(inputs.client_branch.deep_view())
    &&& c.runner.service.git.commit@ == given(inputs.client_commit.deep_view())
    &&& c.runner.runtime.name@ == "rust"@
    &&& c.runner.runtime.version@ == rustc_version
    &&& c.runner.os.family@ == given(inputs.os_family.deep_view())
    &&& c.runner_client.transport.url@ == given(inputs.target_url.deep_view())
    &&& c.report_client.transport.url@ == given(inputs.report_url.deep_view())
}

fn check_input(v: &Option<String>, key: &str, out: &mut Vec<String>)
    ensures
        final(out).deep_view() == old(out).deep_view() + violation(key@, v.deep_view()),
{
    let ghost o = old(out).deep_view();
    match v {
        Option::None => {
            let mut m = String::from_str(key);
            m.append(" environment variable not found");
            out.push(m);
            proof {
                assert(out.deep_view() =~= o + violation(key@, v.deep_view()));
            }
        },
        Option::Some(s) => {
            if s.as_str().is_empty() {
                let mut m = String::from_str(key);
                m.append(" environment variable is empty");
                out.push(m);
                proof {
                    assert(out.deep_view() =~= o + violation(key@, v.deep_view()));
                }
            } else {
                proof {
                    assert(out.deep_view() =~= o + violation(key@, v.deep_view()));
                }
            }
        },
    }
}

fn unwrap_value(v: Option<String>) -> (s: String)
    requires
        v is Some,
    ensures
        s@ == given(v.deep_view()),
{
    match v {
        Option::Some(s) => s,
        Option::None => String::new(),
    }
}

impl Config {
    /// Validates the required inputs and assembles the configuration.
    ///
    /// Every input is checked independently; the call succeeds exactly when
    /// none is missing or empty.  On failure the error is a configuration
    /// error whose message joins every violation, one line per violated
    /// input, in enumeration order.
    pub fn new(inputs: EnvInputs, rustc_version: String) -> (r: Result<Config, Error>)
        ensures
            r is Ok <==> invalid_count(inputs) == 0,
            r matches Ok(c) ==> config_matches(c, inputs, rustc_version@),
            r matches Err(e) ==> e.kind matches Kind::Config(m) && m@ == join_with(
                violations(inputs),
                "\n"@,
            ),
    {
        let mut found: Vec<String> = Vec::new();
        check_input(&inputs.build_id, "BUILD_ID", &mut found);
        check_input(&inputs.data_source, "DATA_SOURCE", &mut found);
        check_input(&inputs.client_branch, "CLIENT_BRANCH", &mut found);
        check_input(&inputs.client_commit, "CLIENT_COMMIT", &mut found);
        check_input(&inputs.environment, "CLIENT_BENCHMARK_ENVIRONMENT", &mut found);
        check_input(&inputs.target_url, "ELASTICSEARCH_TARGET_URL", &mut found);
        check_input(&inputs.report_url, "ELASTICSEARCH_REPORT_URL", &mut found);
        check_input(&inputs.service_type, "TARGET_SERVICE_TYPE", &mut found);
        check_input(&inputs.service_name, "TARGET_SERVICE_NAME", &mut found);
        check_input(&inputs.service_version, "TARGET_SERVICE_VERSION", &mut found);
        check_input(&inputs.os_family, "TARGET_SERVICE_OS_FAMILY", &mut found);
        proof {
            assert(found.deep_view() =~= violations(inputs));
        }
        if found.len() > 0 {
            return Err(Error::config(join_strings(&found, "\n")));
        }
        let build_id = unwrap_value(inputs.build_id);
        let environment = unwrap_value(inputs.environment);
        let client_branch = unwrap_value(inputs.client_branch);
        let client_commit = unwrap_value(inputs.client_commit);
        let target_url = unwrap_value(inputs.target_url);
        let report_url = unwrap_value(inputs.report_url);
        let service_type = unwrap_value(inputs.service_type);
        let service_name = unwrap_value(inputs.service_name);
        let service_version = unwrap_value(inputs.service_version);
        let os_family = unwrap_value(inputs.os_family);

        let target_service = record::Service {
            ty: service_type.clone(),
            name: service_name.clone(),
            version: service_version.clone(),
            git: record::Git { branch: client_branch.clone(), commit: client_commit.clone() },
        };
        let runner_service = record::Service {
            ty: service_type,
            name: service_name,
            version: service_version,
            git: record::Git { branch: client_branch, commit: client_commit },
        };
        Ok(
            Config {
                build_id,
                environment,
                target: record::Target {
                    service: target_service,
                    os: record::Os { family: os_family.clone() },
                },
                runner: record::Runner {
                    service: runner_service,
                    runtime: record::Runtime {
                        name: String::from_str("rust"),
                        version: rustc_version,
                    },
                    os: record::Os { family: os_family },
                },
                runner_client: Elasticsearch::new(Transport::single_node(target_url.as_str())),
                report_client: Elasticsearch::new(Transport::single_node(report_url.as_str())),
            },
        )
    }

    /// The client aimed at the system under test.
    pub fn runner_client(&self) -> (c: &Elasticsearch)
        ensures
            c == &self.runner_client,
    {
        &self.runner_client
    }

    /// The benchmark environment label.
    pub fn environment(&self) -> (s: &str)
        ensures
            s@ == self.environment@,
    {
        self.environment.as_str()
    }
}

proof fn lemma_violation_newline_free(key: Seq<char>, v: Option<Seq<char>>)
    requires
        count_char(key, '\n') == 0,
    ensures
        all_sep_free(violation(key, v), '\n'),
{
    let missing = " environment variable not found"@;
    let empty = " environment variable is empty"@;
    reveal_strlit(" environment variable not found");
    reveal_strlit(" environment variable is empty");
    assert(forall|i: int| 0 <= i < missing.len() ==> missing[i] != '\n');
    assert(forall|i: int| 0 <= i < empty.len() ==> empty[i] != '\n');
    lemma_count_char_zero(missing, '\n');
    lemma_count_char_zero(empty, '\n');
    lemma_count_char_concat(key, missing, '\n');
    lemma_count_char_concat(key, empty, '\n');
}

/// One input contributes exactly one violation message when it is missing
/// or empty, and none otherwise.
proof fn lemma_violation_len(key: Seq<char>, v: Option<Seq<char>>)
    ensures
        violation(key, v).len() == ind(v),
{
}

proof fn lemma_keys_newline_free()
    ensures
        count_char("BUILD_ID"@, '\n') == 0,
        count_char("DATA_SOURCE"@, '\n') == 0,
        count_char("CLIENT_BRANCH"@, '\n') == 0,
        count_char("CLIENT_COMMIT"@, '\n') == 0,
        count_char("CLIENT_BENCHMARK_ENVIRONMENT"@, '\n') == 0,
        count_char("ELASTICSEARCH_TARGET_URL"@, '\n') == 0,
        count_char("ELASTICSEARCH_REPORT_URL"@, '\n') == 0,
        count_char("TARGET_SERVICE_TYPE"@, '\n') == 0,
        count_char("TARGET_SERVICE_NAME"@, '\n') == 0,
        count_char("TARGET_SERVICE_VERSION"@, '\n') == 0,
        count_char("TARGET_SERVICE_OS_FAMILY"@, '\n') == 0,
{
    reveal_strlit("BUILD_ID");
    reveal_strlit("DATA_SOURCE");
    reveal_strlit("CLIENT_BRANCH");
    reveal_strlit("CLIENT_COMMIT");
    reveal_strlit("CLIENT_BENCHMARK_ENVIRONMENT");
    reveal_strlit("ELASTICSEARCH_TARGET_URL");
    reveal_strlit("ELASTICSEARCH_REPORT_URL");
    reveal_strlit("TARGET_SERVICE_TYPE");
    reveal_strlit("TARGET_SERVICE_NAME");
    reveal_strlit("TARGET_SERVICE_VERSION");
    reveal_strlit("TARGET_SERVICE_OS_FAMILY");
    assert(forall|i: int| 0 <= i < "BUILD_ID"@.len() ==> "BUILD_ID"@[i] != '\n');
    lemma_count_char_zero("BUILD_ID"@, '\n');
    assert(forall|i: int| 0 <= i < "DATA_SOURCE"@.len() ==> "DATA_SOURCE"@[i] != '\n');
    lemma_count_char_zero("DATA_SOURCE"@, '\n');
    assert(forall|i: int| 0 <= i < "CLIENT_BRANCH"@.len() ==> "CLIENT_BRANCH"@[i] != '\n');
    lemma_count_char_zero("CLIENT_BRANCH"@, '\n');
    assert(forall|i: int| 0 <= i < "CLIENT_COMMIT"@.len() ==> "CLIENT_COMMIT"@[i] != '\n');
    lemma_count_char_zero("CLIENT_COMMIT"@, '\n');
    assert(forall|i: int| 0 <= i < "CLIENT_BENCHMARK_ENVIRONMENT"@.len() ==> "CLIENT_BENCHMARK_ENVIRONMENT"@[i] != '\n');
    lemma_count_char_zero("CLIENT_BENCHMARK_ENVIRONMENT"@, '\n');
    assert(forall|i: int| 0 <= i < "ELASTICSEARCH_TARGET_URL"@.len() ==> "ELASTICSEARCH_TARGET_URL"@[i] != '\n');
    lemma_count_char_zero("ELASTICSEARCH_TARGET_URL"@, '\n');
    assert(forall|i: int| 0 <= i < "ELASTICSEARCH_REPORT_URL"@.len() ==> "ELASTICSEARCH_REPORT_URL"@[i] != '\n');
    lemma_count_char_zero("ELASTICSEARCH_REPORT_URL"@, '\n');
    assert(forall|i: int| 0 <= i < "TARGET_SERVICE_TYPE"@.len() ==> "TARGET_SERVICE_TYPE"@[i] != '\n');
    lemma_count_char_zero("TARGET_SERVICE_TYPE"@, '\n');
    assert(forall|i: int| 0 <= i < "TARGET_SERVICE_NAME"@.len() ==> "TARGET_SERVICE_NAME"@[i] != '\n');
    lemma_count_char_zero("TARGET_SERVICE_NAME"@, '\n');
    assert(forall|i: int| 0 <= i < "TARGET_SERVICE_VERSION"@.len() ==> "TARGET_SERVICE_VERSION"@[i] != '\n');
    lemma_count_char_zero("TARGET_SERVICE_VERSION"@, '\n');
    assert(forall|i: int| 0 <= i < "TARGET_SERVICE_OS_FAMILY"@.len() ==> "TARGET_SERVICE_OS_FAMILY"@[i] != '\n');
    lemma_count_char_zero("TARGET_SERVICE_OS_FAMILY"@, '\n');
}

proof fn lemma_violations_newline_free(inputs: EnvInputs)
    ensures
        all_sep_free(violations(inputs), '\n'),
{
    lemma_keys_newline_free();
    lemma_violation_newline_free("BUILD_ID"@, inputs.build_id.deep_view());
    lemma_violation_newline_free("DATA_SOURCE"@, inputs.data_source.deep_view());
    lemma_violation_newline_free("CLIENT_BRANCH"@, inputs.client_branch.deep_view());
    lemma_violation_newline_free("CLIENT_COMMIT"@, inputs.client_commit.deep_view());
    lemma_violation_newline_free("CLIENT_BENCHMARK_ENVIRONMENT"@, inputs.environment.deep_view());
    lemma_violation_newline_free("ELASTICSEARCH_TARGET_URL"@, inputs.target_url.deep_view());
    lemma_violation_newline_free("ELASTICSEARCH_REPORT_URL"@, inputs.report_url.deep_view());
    lemma_violation_newline_free("TARGET_SERVICE_TYPE"@, inputs.service_type.deep_view());
    lemma_violation_newline_free("TARGET_SERVICE_NAME"@, inputs.service_name.deep_view());
    lemma_violation_newline_free("TARGET_SERVICE_VERSION"@, inputs.service_version.deep_view());
    lemma_violation_newline_free("TARGET_SERVICE_OS_FAMILY"@, inputs.os_family.deep_view());
    let ghost mut acc = violation("BUILD_ID"@, inputs.build_id.deep_view());
    lemma_all_sep_free_concat(acc, violation("DATA_SOURCE"@, inputs.data_source.deep_view()), '\n');
    acc = acc + violation("DATA_SOURCE"@, inputs.data_source.deep_view());
    lemma_all_sep_free_concat(acc, violation("CLIENT_BRANCH"@, inputs.client_branch.deep_view()), '\n');
    acc = acc + violation("CLIENT_BRANCH"@, inputs.client_branch.deep_view());
    lemma_all_sep_free_concat(acc, violation("CLIENT_COMMIT"@, inputs.client_commit.deep_view()), '\n');
    acc = acc + violation("CLIENT_COMMIT"@, inputs.client_commit.deep_view());
    lemma_all_sep_free_concat(acc, violation("CLIENT_BENCHMARK_ENVIRONMENT"@, inputs.environment.deep_view()), '\n');
    acc = acc + violation("CLIENT_BENCHMARK_ENVIRONMENT"@, inputs.environment.deep_view());
    lemma_all_sep_free_concat(acc, violation("ELASTICSEARCH_TARGET_URL"@, inputs.target_url.deep_view()), '\n');
    acc = acc + violation("ELASTICSEARCH_TARGET_URL"@, inputs.target_url.deep_view());
    lemma_all_sep_free_concat(acc, violation("ELASTICSEARCH_REPORT_URL"@, inputs.report_url.deep_view()), '\n');
    acc = acc + violation("ELASTICSEARCH_REPORT_URL"@, inputs.report_url.deep_view());
    lemma_all_sep_free_concat(acc, violation("TARGET_SERVICE_TYPE"@, inputs.service_type.deep_view()), '\n');
    acc = acc + violation("TARGET_SERVICE_TYPE"@, inputs.service_type.deep_view());
    lemma_all_sep_free_concat(acc, violation("TARGET_SERVICE_NAME"@, inputs.service_name.deep_view()), '\n');
    acc = acc + violation("TARGET_SERVICE_NAME"@, inputs.service_name.deep_view());
    lemma_all_sep_free_concat(acc, violation("TARGET_SERVICE_VERSION"@, inputs.service_version.deep_view()), '\n');
    acc = acc + violation("TARGET_SERVICE_VERSION"@, inputs.service_version.deep_view());
    lemma_all_sep_free_concat(acc, violation("TARGET_SERVICE_OS_FAMILY"@, inputs.os_family.deep_view()), '\n');
    acc = acc + violation("TARGET_SERVICE_OS_FAMILY"@, inputs.os_family.deep_view());
    assert(acc == violations(inputs));
}

/// A failed validation reports every violated input, and only those: the
/// list of violation messages has exactly one entry per missing or empty
/// input, and the newline-joined message holds exactly one line per entry,
/// with a single newline between neighbouring lines.
#[verifier::rlimit(50)]
pub proof fn lemma_violation_line_count(inputs: EnvInputs)
    requires
        invalid_count(inputs) > 0,
    ensures
        violations(inputs).len() == invalid_count(inputs),
        count_char(join_with(violations(inputs), "\n"@), '\n') == invalid_count(inputs) - 1,
{
    lemma_violation_len("BUILD_ID"@, inputs.build_id.deep_view());
    lemma_violation_len("DATA_SOURCE"@, inputs.data_source.deep_view());
    lemma_violation_len("CLIENT_BRANCH"@, inputs.client_branch.deep_view());
    lemma_violation_len("CLIENT_COMMIT"@, inputs.client_commit.deep_view());
    lemma_violation_len("CLIENT_BENCHMARK_ENVIRONMENT"@, inputs.environment.deep_view());
    lemma_violation_len("ELASTICSEARCH_TARGET_URL"@, inputs.target_url.deep_view());
    lemma_violation_len("ELASTICSEARCH_REPORT_URL"@, inputs.report_url.deep_view());
    lemma_violation_len("TARGET_SERVICE_TYPE"@, inputs.service_type.deep_view());
    lemma_violation_len("TARGET_SERVICE_NAME"@, inputs.service_name.deep_view());
    lemma_violation_len("TARGET_SERVICE_VERSION"@, inputs.service_version.deep_view());
    lemma_violation_len("TARGET_SERVICE_OS_FAMILY"@, inputs.os_family.deep_view());
    lemma_violations_newline_free(inputs);
    reveal_strlit("\n");
    assert("\n"@ =~= seq!['\n']);
    lemma_join_separator_count(violations(inputs), '\n');
}

} // verus!
