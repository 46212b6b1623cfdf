//! Request builders for the snapshot-lifecycle-management endpoints.
//!
//! Each endpoint has a parts type that renders its relative URL path, and
//! a builder that collects the optional query parameters, headers and —
//! where the endpoint takes one — a body.  `request` assembles the final
//! [`HttpRequest`]; carrying it to the wire is the transport's job.

use vstd::prelude::*;
use vstd::string::*;
use crate::encode::{percent_encode_str, percent_encoded_text};
use crate::http::{insert_header, Elasticsearch, Headers, HttpRequest, Method};
use crate::text::{join_strings, join_with};

verus! {

// ---------------------------------------------------------------------------
// Query parameters
// ---------------------------------------------------------------------------

/// The query-string text of a boolean parameter.
pub open spec fn bool_text(b: bool) -> Seq<char> {
    if b {
        "true"@
    } else {
        "false"@
    }
}

/// Zero or one query pairs for an optional parameter.
pub open spec fn opt_param(key: Seq<char>, v: Option<Seq<char>>) -> Seq<(Seq<char>, Seq<char>)> {
    match v {
        Option::Some(s) => seq![(key, s)],
        Option::None => Seq::empty(),
    }
}

/// The view of a list of rendered pairs.
pub open spec fn pairs_view(s: Seq<(String, String)>) -> Seq<(Seq<char>, Seq<char>)> {
    Seq::new(s.len(), |i: int| (s[i].0@, s[i].1@))
}

/// The query parameters every builder shares, in their fixed order:
/// `error_trace`, `filter_path` (joined by commas), `human`, `pretty`,
/// `source`; absent parameters are skipped.
pub open spec fn query_params(
    error_trace: Option<bool>,
    filter_path: Option<Seq<Seq<char>>>,
    human: Option<bool>,
    pretty: Option<bool>,
    source: Option<Seq<char>>,
) -> Seq<(Seq<char>, Seq<char>)> {
    opt_param(
        "error_trace"@,
        match error_trace {
            Option::Some(b) => Option::Some(bool_text(b)),
            Option::None => Option::None,
        },
    ) + opt_param(
        "filter_path"@,
        match filter_path {
            Option::Some(v) => Option::Some(join_with(v, ","@)),
            Option::None => Option::None,
        },
    ) + opt_param(
        "human"@,
        match human {
            Option::Some(b) => Option::Some(bool_text(b)),
            Option::None => Option::None,
        },
    ) + opt_param(
        "pretty"@,
        match pretty {
            Option::Some(b) => Option::Some(bool_text(b)),
            Option::None => Option::None,
        },
    ) + opt_param("source"@, source)
}

fn bool_str(b: bool) -> (s: &'static str)
    ensures
        s@ == bool_text(b),
{
    if b {
        "true"
    } else {
        "false"
    }
}

fn build_query(
    error_trace: &Option<bool>,
    filter_path: &Option<Vec<String>>,
    human: &Option<bool>,
    pretty: &Option<bool>,
    source: &Option<String>,
) -> (q: Vec<(String, String)>)
    ensures
        pairs_view(q@) == query_params(
            *error_trace,
            filter_path.deep_view(),
            *human,
            *pretty,
            source.deep_view(),
        ),
{
    let mut q: Vec<(String, String)> = Vec::new();
    match error_trace {
        Option::Some(b) => {
            q.push((String::from_str("error_trace"), String::from_str(bool_str(*b))));
        },
        Option::None => {},
    }
    match filter_path {
        Option::Some(v) => {
            q.push((String::from_str("filter_path"), join_strings(v, ",")));
        },
        Option::None => {},
    }
    match human {
        Option::Some(b) => {
            q.push((String::from_str("human"), String::from_str(bool_str(*b))));
        },
        Option::None => {},
    }
    match pretty {
        Option::Some(b) => {
            q.push((String::from_str("pretty"), String::from_str(bool_str(*b))));
        },
        Option::None => {},
    }
    match source {
        Option::Some(s) => {
            q.push((String::from_str("source"), s.clone()));
        },
        Option::None => {},
    }
    proof {
        assert(pairs_view(q@) =~= query_params(
            *error_trace,
            filter_path.deep_view(),
            *human,
            *pretty,
            source.deep_view(),
        ));
    }
    q
}

// ---------------------------------------------------------------------------
// Delete Lifecycle
// ---------------------------------------------------------------------------

/// API parts for the delete-lifecycle endpoint.
#[derive(Debug, Clone, PartialEq)]
pub enum SlmDeleteLifecycleParts {
    PolicyId(String),
}

/// The URL path the delete-lifecycle parts render.
pub open spec fn slm_delete_lifecycle_url(parts: SlmDeleteLifecycleParts) -> Seq<char> {
    match parts {
        SlmDeleteLifecycleParts::PolicyId(pid) => "/_slm/policy/"@ + percent_encoded_text(pid@),
    }
}

impl SlmDeleteLifecycleParts {
    /// Builds a relative URL path to the delete-lifecycle endpoint.
    pub fn url(self) -> (p: String)
        ensures
            p@ == slm_delete_lifecycle_url(self),
    {
        match self {
            SlmDeleteLifecycleParts::PolicyId(policy_id) => {
                let encoded = percent_encode_str(policy_id.as_str());
                let mut p = String::from_str("/_slm/policy/");
                p.append(encoded.as_str());
                p
            },
        }
    }
}

/// Builder for the delete-lifecycle endpoint, which deletes an existing
/// snapshot lifecycle policy.
pub struct SlmDeleteLifecycle<'a> {
    pub client: &'a Elasticsearch,
    pub parts: SlmDeleteLifecycleParts,
    pub error_trace: Option<bool>,
    pub filter_path: Option<Vec<String>>,
    pub headers: Headers,
    pub human: Option<bool>,
    pub pretty: Option<bool>,
    pub source: Option<String>,
}

impl<'a> SlmDeleteLifecycle<'a> {
    /// A new builder with the given API parts and no options set.
    pub fn new(client: &'a Elasticsearch, parts: SlmDeleteLifecycleParts) -> (b: SlmDeleteLifecycle<
        'a,
    >)
        ensures
            b.client == client,
            b.parts == parts,
            b.error_trace is None,
            b.filter_path is None,
            b.headers@ == Seq::<(Seq<char>, Seq<char>)>::empty(),
            b.human is None,
            b.pretty is None,
            b.source is None,
    {
        SlmDeleteLifecycle {
            client,
            parts,
            headers: Headers::new(),
            error_trace: None,
            filter_path: None,
            human: None,
            pretty: None,
            source: None,
        }
    }

    /// Include the stack trace of returned errors.
    pub fn error_trace(self, error_trace: bool) -> (b: Self)
        ensures
            b == (SlmDeleteLifecycle { error_trace: Some(error_trace), ..self }),
    {
        let mut b = self;
        b.error_trace = Some(error_trace);
        b
    }

    /// A comma-separated list of filters used to reduce the response.
    pub fn filter_path(self, filter_path: Vec<String>) -> (b: Self)
        ensures
            b == (SlmDeleteLifecycle { filter_path: Some(filter_path), ..self }),
    {
        let mut b = self;
        b.filter_path = Some(filter_path);
        b
    }

    /// Adds a HTTP header.
    pub fn header(self, key: String, value: String) -> (b: Self)
        ensures
            b.headers@ == insert_header(self.headers@, key@, value@),
            b == (SlmDeleteLifecycle { headers: b.headers, ..self }),
    {
        let mut b = self;
        b.headers.insert(key, value);
        b
    }

    /// Return human readable values for statistics.
    pub fn human(self, human: bool) -> (b: Self)
        ensures
            b == (SlmDeleteLifecycle { human: Some(human), ..self }),
    {
        let mut b = self;
        b.human = Some(human);
        b
    }

    /// Pretty format the returned JSON response.
    pub fn pretty(self, pretty: bool) -> (b: Self)
        ensures
            b == (SlmDeleteLifecycle { pretty: Some(pretty), ..self }),
    {
        let mut b = self;
        b.pretty = Some(pretty);
        b
    }

    /// The URL-encoded request definition.
    pub fn source(self, source: String) -> (b: Self)
        ensures
            b == (SlmDeleteLifecycle { source: Some(source), ..self }),
    {
        let mut b = self;
        b.source = Some(source);
        b
    }

    /// Assembles the request this builder describes.
    pub fn request(self) -> (r: HttpRequest)
        ensures
            r.method == Method::Delete,
            r.path@ == slm_delete_lifecycle_url(self.parts),
            pairs_view(r.query@) == query_params(
                self.error_trace,
                self.filter_path.deep_view(),
                self.human,
                self.pretty,
                self.source.deep_view(),
            ),
            r.headers == self.headers,
            r.body is None,
    {
        let query = build_query(
            &self.error_trace,
            &self.filter_path,
            &self.human,
            &self.pretty,
            &self.source,
        );
        let path = self.parts.url();
        HttpRequest { method: Method::Delete, path, query, headers: self.headers, body: None }
    }
}

// ---------------------------------------------------------------------------
// ExecuteLifecycle
// ---------------------------------------------------------------------------

/// API parts for the execute-lifecycle endpoint.
#[derive(Debug, Clone, PartialEq)]
pub enum SlmExecuteLifecycleParts {
    PolicyId(String),
}

/// The URL path the execute-lifecycle parts render.
pub open spec fn slm_execute_lifecycle_url(parts: SlmExecuteLifecycleParts) -> Seq<char> {
    match parts {
        SlmExecuteLifecycleParts::PolicyId(pid) => "/_slm/policy/"@ + percent_encoded_text(pid@) + "/_execute"@,
    }
}

impl SlmExecuteLifecycleParts {
    /// Builds a relative URL path to the execute-lifecycle endpoint.
    pub fn url(self) -> (p: String)
        ensures
            p@ == slm_execute_lifecycle_url(self),
    {
        match self {
            SlmExecuteLifecycleParts::PolicyId(policy_id) => {
                let encoded = percent_encode_str(policy_id.as_str());
                let mut p = String::from_str("/_slm/policy/");
                p.append(encoded.as_str());
                p.append("/_execute");
                p
            },
        }
    }
}

/// Builder for the execute-lifecycle endpoint, which immediately creates a snapshot according to the lifecycle policy, without waiting for the scheduled time.
pub struct SlmExecuteLifecycle<'a> {
    pub client: &'a Elasticsearch,
    pub parts: SlmExecuteLifecycleParts,
    pub body: Option<String>,
    pub error_trace: Option<bool>,
    pub filter_path: Option<Vec<String>>,
    pub headers: Headers,
    pub human: Option<bool>,
    pub pretty: Option<bool>,
    pub source: Option<String>,
}

impl<'a> SlmExecuteLifecycle<'a> {
    /// A new builder with no options set.
    pub fn new(client: &'a Elasticsearch, parts: SlmExecuteLifecycleParts) -> (b: SlmExecuteLifecycle<'a>)
        ensures
            b.client == client,
            b.parts == parts,
            b.body is None,
            b.error_trace is None,
            b.filter_path is None,
            b.headers@ == Seq::<(Seq<char>, Seq<char>)>::empty(),
            b.human is None,
            b.pretty is None,
            b.source is None,
    {
        SlmExecuteLifecycle {
            client,
            parts,
            headers: Headers::new(),
            body: None,
            error_trace: None,
            filter_path: None,
            human: None,
            pretty: None,
            source: None,
        }
    }

    /// The body for the API call.
    pub fn body(self, body: String) -> (b: Self)
        ensures
            b == (SlmExecuteLifecycle { body: Some(body), ..self }),
    {
        let mut b = self;
        b.body = Some(body);
        b
    }

    /// Include the stack trace of returned errors.
    pub fn error_trace(self, error_trace: bool) -> (b: Self)
        ensures
            b == (SlmExecuteLifecycle { error_trace: Some(error_trace), ..self }),
    {
        let mut b = self;
        b.error_trace = Some(error_trace);
        b
    }

    /// A comma-separated list of filters used to reduce the response.
    pub fn filter_path(self, filter_path: Vec<String>) -> (b: Self)
        ensures
            b == (SlmExecuteLifecycle { filter_path: Some(filter_path), ..self }),
    {
        let mut b = self;
        b.filter_path = Some(filter_path);
        b
    }

    /// Return human readable values for statistics.
    pub fn human(self, human: bool) -> (b: Self)
        ensures
            b == (SlmExecuteLifecycle { human: Some(human), ..self }),
    {
        let mut b = self;
        b.human = Some(human);
        b
    }

    /// Pretty format the returned JSON response.
    pub fn pretty(self, pretty: bool) -> (b: Self)
        ensures
            b == (SlmExecuteLifecycle { pretty: Some(pretty), ..self }),
    {
        let mut b = self;
        b.pretty = Some(pretty);
        b
    }

    /// The URL-encoded request definition.
    pub fn source(self, source: String) -> (b: Self)
        ensures
            b == (SlmExecuteLifecycle { source: Some(source), ..self }),
    {
        let mut b = self;
        b.source = Some(source);
        b
    }

    /// Adds a HTTP header.
    pub fn header(self, key: String, value: String) -> (b: Self)
        ensures
            b.headers@ == insert_header(self.headers@, key@, value@),
            b == (SlmExecuteLifecycle { headers: b.headers, ..self }),
    {
        let mut b = self;
        b.headers.insert(key, value);
        b
    }

    /// Assembles the request this builder describes.
    pub fn request(self) -> (r: HttpRequest)
        ensures
            r.method == Method::Put,
            r.path@ == slm_execute_lifecycle_url(self.parts),
            pairs_view(r.query@) == query_params(
                self.error_trace,
                self.filter_path.deep_view(),
                self.human,
                self.pretty,
                self.source.deep_view(),
            ),
            r.headers == self.headers,
            r.body == self.body,
    {
        let query = build_query(
            &self.error_trace,
            &self.filter_path,
            &self.human,
            &self.pretty,
            &self.source,
        );
        let path = self.parts.url();
        HttpRequest { method: Method::Put, path, query, headers: self.headers, body: self.body }
    }
}

// ---------------------------------------------------------------------------
// ExecuteRetention
// ---------------------------------------------------------------------------

/// API parts for the execute-retention endpoint.
#[derive(Debug, Clone, PartialEq)]
pub enum SlmExecuteRetentionParts {
    NoParts,
}

/// The URL path the execute-retention parts render.
pub open spec fn slm_execute_retention_url(parts: SlmExecuteRetentionParts) -> Seq<char> {
    match parts {
        SlmExecuteRetentionParts::NoParts => "/_slm/_execute_retention"@,
    }
}

impl SlmExecuteRetentionParts {
    /// Builds a relative URL path to the execute-retention endpoint.
    pub fn url(self) -> (p: String)
        ensures
            p@ == slm_execute_retention_url(self),
    {
        match self {
            SlmExecuteRetentionParts::NoParts => String::from_str("/_slm/_execute_retention"),
        }
    }
}

/// Builder for the execute-retention endpoint, which deletes any snapshots that are expired according to the policy's retention rules.
pub struct SlmExecuteRetention<'a> {
    pub client: &'a Elasticsearch,
    pub parts: SlmExecuteRetentionParts,
    pub body: Option<String>,
    pub error_trace: Option<bool>,
    pub filter_path: Option<Vec<String>>,
    pub headers: Headers,
    pub human: Option<bool>,
    pub pretty: Option<bool>,
    pub source: Option<String>,
}

impl<'a> SlmExecuteRetention<'a> {
    /// A new builder with no options set.
    pub fn new(client: &'a Elasticsearch) -> (b: SlmExecuteRetention<'a>)
        ensures
            b.client == client,
            b.parts == SlmExecuteRetentionParts::NoParts,
            b.body is None,
            b.error_trace is None,
            b.filter_path is None,
            b.headers@ == Seq::<(Seq<char>, Seq<char>)>::empty(),
            b.human is None,
            b.pretty is None,
            b.source is None,
    {
        SlmExecuteRetention {
            client,
            parts: SlmExecuteRetentionParts::NoParts,
            headers: Headers::new(),
            body: None,
            error_trace: None,
            filter_path: None,
            human: None,
            pretty: None,
            source: None,
        }
    }

    /// The body for the API call.
    pub fn body(self, body: String) -> (b: Self)
        ensures
            b == (SlmExecuteRetention { body: Some(body), ..self }),
    {
        let mut b = self;
        b.body = Some(body);
        b
    }

    /// Include the stack trace of returned errors.
    pub fn error_trace(self, error_trace: bool) -> (b: Self)
        ensures
            b == (SlmExecuteRetention { error_trace: Some(error_trace), ..self }),
    {
        let mut b = self;
        b.error_trace = Some(error_trace);
        b
    }

    /// A comma-separated list of filters used to reduce the response.
    pub fn filter_path(self, filter_path: Vec<String>) -> (b: Self)
        ensures
            b == (SlmExecuteRetention { filter_path: Some(filter_path), ..self }),
    {
        let mut b = self;
        b.filter_path = Some(filter_path);
        b
    }

    /// Return human readable values for statistics.
    pub fn human(self, human: bool) -> (b: Self)
        ensures
            b == (SlmExecuteRetention { human: Some(human), ..self }),
    {
        let mut b = self;
        b.human = Some(human);
        b
    }

    /// Pretty format the returned JSON response.
    pub fn pretty(self, pretty: bool) -> (b: Self)
        ensures
            b == (SlmExecuteRetention { pretty: Some(pretty), ..self }),
    {
        let mut b = self;
        b.pretty = Some(pretty);
        b
    }

    /// The URL-encoded request definition.
    pub fn source(self, source: String) -> (b: Self)
        ensures
            b == (SlmExecuteRetention { source: Some(source), ..self }),
    {
        let mut b = self;
        b.source = Some(source);
        b
    }

    /// Adds a HTTP header.
    pub fn header(self, key: String, value: String) -> (b: Self)
        ensures
            b.headers@ == insert_header(self.headers@, key@, value@),
            b == (SlmExecuteRetention { headers: b.headers, ..self }),
    {
        let mut b = self;
        b.headers.insert(key, value);
        b
    }

    /// Assembles the request this builder describes.
    pub fn request(self) -> (r: HttpRequest)
        ensures
            r.method == Method::Post,
            r.path@ == slm_execute_retention_url(self.parts),
            pairs_view(r.query@) == query_params(
                self.error_trace,
                self.filter_path.deep_view(),
                self.human,
                self.pretty,
                self.source.deep_view(),
            ),
            r.headers == self.headers,
            r.body == self.body,
    {
        let query = build_query(
            &self.error_trace,
            &self.filter_path,
            &self.human,
            &self.pretty,
            &self.source,
        );
        let path = self.parts.url();
        HttpRequest { method: Method::Post, path, query, headers: self.headers, body: self.body }
    }
}

// ---------------------------------------------------------------------------
// GetLifecycle
// ---------------------------------------------------------------------------

/// API parts for the get-lifecycle endpoint.
#[derive(Debug, Clone, PartialEq)]
pub enum SlmGetLifecycleParts {
    PolicyId(Vec<String>),
    NoParts,
}

/// The URL path the get-lifecycle parts render.
pub open spec fn slm_get_lifecycle_url(parts: SlmGetLifecycleParts) -> Seq<char> {
    match parts {
        SlmGetLifecycleParts::PolicyId(pids) => "/_slm/policy/"@ + percent_encoded_text(
            join_with(pids.deep_view(), ","@),
        ),
        SlmGetLifecycleParts::NoParts => "/_slm/policy"@,
    }
}

impl SlmGetLifecycleParts {
    /// Builds a relative URL path to the get-lifecycle endpoint.
    pub fn url(self) -> (p: String)
        ensures
            p@ == slm_get_lifecycle_url(self),
    {
        match self {
            SlmGetLifecycleParts::PolicyId(policy_id) => {
                let joined = join_strings(&policy_id, ",");
                let encoded = percent_encode_str(joined.as_str());
                let mut p = String::from_str("/_slm/policy/");
                p.append(encoded.as_str());
                p
            },
            SlmGetLifecycleParts::NoParts => String::from_str("/_slm/policy"),
        }
    }
}

/// Builder for the get-lifecycle endpoint, which retrieves one or more snapshot lifecycle policy definitions.
pub struct SlmGetLifecycle<'a> {
    pub client: &'a Elasticsearch,
    pub parts: SlmGetLifecycleParts,
    pub error_trace: Option<bool>,
    pub filter_path: Option<Vec<String>>,
    pub headers: Headers,
    pub human: Option<bool>,
    pub pretty: Option<bool>,
    pub source: Option<String>,
}

impl<'a> SlmGetLifecycle<'a> {
    /// A new builder with no options set.
    pub fn new(client: &'a Elasticsearch, parts: SlmGetLifecycleParts) -> (b: SlmGetLifecycle<'a>)
        ensures
            b.client == client,
            b.parts == parts,
            b.error_trace is None,
            b.filter_path is None,
            b.headers@ == Seq::<(Seq<char>, Seq<char>)>::empty(),
            b.human is None,
            b.pretty is None,
            b.source is None,
    {
        SlmGetLifecycle {
            client,
            parts,
            headers: Headers::new(),
            error_trace: None,
            filter_path: None,
            human: None,
            pretty: None,
            source: None,
        }
    }

    /// Include the stack trace of returned errors.
    pub fn error_trace(self, error_trace: bool) -> (b: Self)
        ensures
            b == (SlmGetLifecycle { error_trace: Some(error_trace), ..self }),
    {
        let mut b = self;
        b.error_trace = Some(error_trace);
        b
    }

    /// A comma-separated list of filters used to reduce the response.
    pub fn filter_path(self, filter_path: Vec<String>) -> (b: Self)
        ensures
            b == (SlmGetLifecycle { filter_path: Some(filter_path), ..self }),
    {
        let mut b = self;
        b.filter_path = Some(filter_path);
        b
    }

    /// Return human readable values for statistics.
    pub fn human(self, human: bool) -> (b: Self)
        ensures
            b == (SlmGetLifecycle { human: Some(human), ..self }),
    {
        let mut b = self;
        b.human = Some(human);
        b
    }

    /// Pretty format the returned JSON response.
    pub fn pretty(self, pretty: bool) -> (b: Self)
        ensures
            b == (SlmGetLifecycle { pretty: Some(pretty), ..self }),
    {
        let mut b = self;
        b.pretty = Some(pretty);
        b
    }

    /// The URL-encoded request definition.
    pub fn source(self, source: String) -> (b: Self)
        ensures
            b == (SlmGetLifecycle { source: Some(source), ..self }),
    {
        let mut b = self;
        b.source = Some(source);
        b
    }

    /// Adds a HTTP header.
    pub fn header(self, key: String, value: String) -> (b: Self)
        ensures
            b.headers@ == insert_header(self.headers@, key@, value@),
            b == (SlmGetLifecycle { headers: b.headers, ..self }),
    {
        let mut b = self;
        b.headers.insert(key, value);
        b
    }

    /// Assembles the request this builder describes.
    pub fn request(self) -> (r: HttpRequest)
        ensures
            r.method == Method::Get,
            r.path@ == slm_get_lifecycle_url(self.parts),
            pairs_view(r.query@) == query_params(
                self.error_trace,
                self.filter_path.deep_view(),
                self.human,
                self.pretty,
                self.source.deep_view(),
            ),
            r.headers == self.headers,
            r.body is None,
    {
        let query = build_query(
            &self.error_trace,
            &self.filter_path,
            &self.human,
            &self.pretty,
            &self.source,
        );
        let path = self.parts.url();
        HttpRequest { method: Method::Get, path, query, headers: self.headers, body: None }
    }
}

// ---------------------------------------------------------------------------
// GetStats
// ---------------------------------------------------------------------------

/// API parts for the get-stats endpoint.
#[derive(Debug, Clone, PartialEq)]
pub enum SlmGetStatsParts {
    NoParts,
}

/// The URL path the get-stats parts render.
pub open spec fn slm_get_stats_url(parts: SlmGetStatsParts) -> Seq<char> {
    match parts {
        SlmGetStatsParts::NoParts => "/_slm/stats"@,
    }
}

impl SlmGetStatsParts {
    /// Builds a relative URL path to the get-stats endpoint.
    pub fn url(self) -> (p: String)
        ensures
            p@ == slm_get_stats_url(self),
    {
        match self {
            SlmGetStatsParts::NoParts => String::from_str("/_slm/stats"),
        }
    }
}

/// Builder for the get-stats endpoint, which returns global and policy-level statistics about snapshot lifecycle management.
pub struct SlmGetStats<'a> {
    pub client: &'a Elasticsearch,
    pub parts: SlmGetStatsParts,
    pub error_trace: Option<bool>,
    pub filter_path: Option<Vec<String>>,
    pub headers: Headers,
    pub human: Option<bool>,
    pub pretty: Option<bool>,
    pub source: Option<String>,
}

impl<'a> SlmGetStats<'a> {
    /// A new builder with no options set.
    pub fn new(client: &'a Elasticsearch) -> (b: SlmGetStats<'a>)
        ensures
            b.client == client,
            b.parts == SlmGetStatsParts::NoParts,
            b.error_trace is None,
            b.filter_path is None,
            b.headers@ == Seq::<(Seq<char>, Seq<char>)>::empty(),
            b.human is None,
            b.pretty is None,
            b.source is None,
    {
        SlmGetStats {
            client,
            parts: SlmGetStatsParts::NoParts,
            headers: Headers::new(),
            error_trace: None,
            filter_path: None,
            human: None,
            pretty: None,
            source: None,
        }
    }

    /// Include the stack trace of returned errors.
    pub fn error_trace(self, error_trace: bool) -> (b: Self)
        ensures
            b == (SlmGetStats { error_trace: Some(error_trace), ..self }),
    {
        let mut b = self;
        b.error_trace = Some(error_trace);
        b
    }

    /// A comma-separated list of filters used to reduce the response.
    pub fn filter_path(self, filter_path: Vec<String>) -> (b: Self)
        ensures
            b == (SlmGetStats { filter_path: Some(filter_path), ..self }),
    {
        let mut b = self;
        b.filter_path = Some(filter_path);
        b
    }

    /// Return human readable values for statistics.
    pub fn human(self, human: bool) -> (b: Self)
        ensures
            b == (SlmGetStats { human: Some(human), ..self }),
    {
        let mut b = self;
        b.human = Some(human);
        b
    }

    /// Pretty format the returned JSON response.
    pub fn pretty(self, pretty: bool) -> (b: Self)
        ensures
            b == (SlmGetStats { pretty: Some(pretty), ..self }),
    {
        let mut b = self;
        b.pretty = Some(pretty);
        b
    }

    /// The URL-encoded request definition.
    pub fn source(self, source: String) -> (b: Self)
        ensures
            b == (SlmGetStats { source: Some(source), ..self }),
    {
        let mut b = self;
        b.source = Some(source);
        b
    }

    /// Adds a HTTP header.
    pub fn header(self, key: String, value: String) -> (b: Self)
        ensures
            b.headers@ == insert_header(self.headers@, key@, value@),
            b == (SlmGetStats { headers: b.headers, ..self }),
    {
        let mut b = self;
        b.headers.insert(key, value);
        b
    }

    /// Assembles the request this builder describes.
    pub fn request(self) -> (r: HttpRequest)
        ensures
            r.method == Method::Get,
            r.path@ == slm_get_stats_url(self.parts),
            pairs_view(r.query@) == query_params(
                self.error_trace,
                self.filter_path.deep_view(),
                self.human,
                self.pretty,
                self.source.deep_view(),
            ),
            r.headers == self.headers,
            r.body is None,
    {
        let query = build_query(
            &self.error_trace,
            &self.filter_path,
            &self.human,
            &self.pretty,
            &self.source,
        );
        let path = self.parts.url();
        HttpRequest { method: Method::Get, path, query, headers: self.headers, body: None }
    }
}

// ---------------------------------------------------------------------------
// GetStatus
// ---------------------------------------------------------------------------

/// API parts for the get-status endpoint.
#[derive(Debug, Clone, PartialEq)]
pub enum SlmGetStatusParts {
    NoParts,
}

/// The URL path the get-status parts render.
pub open spec fn slm_get_status_url(parts: SlmGetStatusParts) -> Seq<char> {
    match parts {
        SlmGetStatusParts::NoParts => "/_slm/status"@,
    }
}

impl SlmGetStatusParts {
    /// Builds a relative URL path to the get-status endpoint.
    pub fn url(self) -> (p: String)
        ensures
            p@ == slm_get_status_url(self),
    {
        match self {
            SlmGetStatusParts::NoParts => String::from_str("/_slm/status"),
        }
    }
}

/// Builder for the get-status endpoint, which retrieves the status of snapshot lifecycle management.
pub struct SlmGetStatus<'a> {
    pub client: &'a Elasticsearch,
    pub parts: SlmGetStatusParts,
    pub error_trace: Option<bool>,
    pub filter_path: Option<Vec<String>>,
    pub headers: Headers,
    pub human: Option<bool>,
    pub pretty: Option<bool>,
    pub source: Option<String>,
}

impl<'a> SlmGetStatus<'a> {
    /// A new builder with no options set.
    pub fn new(client: &'a Elasticsearch) -> (b: SlmGetStatus<'a>)
        ensures
            b.client == client,
            b.parts == SlmGetStatusParts::NoParts,
            b.error_trace is None,
            b.filter_path is None,
            b.headers@ == Seq::<(Seq<char>, Seq<char>)>::empty(),
            b.human is None,
            b.pretty is None,
            b.source is None,
    {
        SlmGetStatus {
            client,
            parts: SlmGetStatusParts::NoParts,
            headers: Headers::new(),
            error_trace: None,
            filter_path: None,
            human: None,
            pretty: None,
            source: None,
        }
    }

    /// Include the stack trace of returned errors.
    pub fn error_trace(self, error_trace: bool) -> (b: Self)
        ensures
            b == (SlmGetStatus { error_trace: Some(error_trace), ..self }),
    {
        let mut b = self;
        b.error_trace = Some(error_trace);
        b
    }

    /// A comma-separated list of filters used to reduce the response.
    pub fn filter_path(self, filter_path: Vec<String>) -> (b: Self)
        ensures
            b == (SlmGetStatus { filter_path: Some(filter_path), ..self }),
    {
        let mut b = self;
        b.filter_path = Some(filter_path);
        b
    }

    /// Return human readable values for statistics.
    pub fn human(self, human: bool) -> (b: Self)
        ensures
            b == (SlmGetStatus { human: Some(human), ..self }),
    {
        let mut b = self;
        b.human = Some(human);
        b
    }

    /// Pretty format the returned JSON response.
    pub fn pretty(self, pretty: bool) -> (b: Self)
        ensures
            b == (SlmGetStatus { pretty: Some(pretty), ..self }),
    {
        let mut b = self;
        b.pretty = Some(pretty);
        b
    }

    /// The URL-encoded request definition.
    pub fn source(self, source: String) -> (b: Self)
        ensures
            b == (SlmGetStatus { source: Some(source), ..self }),
    {
        let mut b = self;
        b.source = Some(source);
        b
    }

    /// Adds a HTTP header.
    pub fn header(self, key: String, value: String) -> (b: Self)
        ensures
            b.headers@ == insert_header(self.headers@, key@, value@),
            b == (SlmGetStatus { headers: b.headers, ..self }),
    {
        let mut b = self;
        b.headers.insert(key, value);
        b
    }

    /// Assembles the request this builder describes.
    pub fn request(self) -> (r: HttpRequest)
        ensures
            r.method == Method::Get,
            r.path@ == slm_get_status_url(self.parts),
            pairs_view(r.query@) == query_params(
                self.error_trace,
                self.filter_path.deep_view(),
                self.human,
                self.pretty,
                self.source.deep_view(),
            ),
            r.headers == self.headers,
            r.body is None,
    {
        let query = build_query(
            &self.error_trace,
            &self.filter_path,
            &self.human,
            &self.pretty,
            &self.source,
        );
        let path = self.parts.url();
        HttpRequest { method: Method::Get, path, query, headers: self.headers, body: None }
    }
}

// ---------------------------------------------------------------------------
// PutLifecycle
// ---------------------------------------------------------------------------

/// API parts for the put-lifecycle endpoint.
#[derive(Debug, Clone, PartialEq)]
pub enum SlmPutLifecycleParts {
    PolicyId(String),
}

/// The URL path the put-lifecycle parts render.
pub open spec fn slm_put_lifecycle_url(parts: SlmPutLifecycleParts) -> Seq<char> {
    match parts {
        SlmPutLifecycleParts::PolicyId(pid) => "/_slm/policy/"@ + percent_encoded_text(pid@),
    }
}

impl SlmPutLifecycleParts {
    /// Builds a relative URL path to the put-lifecycle endpoint.
    pub fn url(self) -> (p: String)
        ensures
            p@ == slm_put_lifecycle_url(self),
    {
        match self {
            SlmPutLifecycleParts::PolicyId(policy_id) => {
                let encoded = percent_encode_str(policy_id.as_str());
                let mut p = String::from_str("/_slm/policy/");
                p.append(encoded.as_str());
                p
            },
        }
    }
}

/// Builder for the put-lifecycle endpoint, which creates or updates a snapshot lifecycle policy.
pub struct SlmPutLifecycle<'a> {
    pub client: &'a Elasticsearch,
    pub parts: SlmPutLifecycleParts,
    pub body: Option<String>,
    pub error_trace: Option<bool>,
    pub filter_path: Option<Vec<String>>,
    pub headers: Headers,
    pub human: Option<bool>,
    pub pretty: Option<bool>,
    pub source: Option<String>,
}

impl<'a> SlmPutLifecycle<'a> {
    /// A new builder with no options set.
    pub fn new(client: &'a Elasticsearch, parts: SlmPutLifecycleParts) -> (b: SlmPutLifecycle<'a>)
        ensures
            b.client == client,
            b.parts == parts,
            b.body is None,
            b.error_trace is None,
            b.filter_path is None,
            b.headers@ == Seq::<(Seq<char>, Seq<char>)>::empty(),
            b.human is None,
            b.pretty is None,
            b.source is None,
    {
        SlmPutLifecycle {
            client,
            parts,
            headers: Headers::new(),
            body: None,
            error_trace: None,
            filter_path: None,
            human: None,
            pretty: None,
            source: None,
        }
    }

    /// The body for the API call.
    pub fn body(self, body: String) -> (b: Self)
        ensures
            b == (SlmPutLifecycle { body: Some(body), ..self }),
    {
        let mut b = self;
        b.body = Some(body);
        b
    }

    /// Include the stack trace of returned errors.
    pub fn error_trace(self, error_trace: bool) -> (b: Self)
        ensures
            b == (SlmPutLifecycle { error_trace: Some(error_trace), ..self }),
    {
        let mut b = self;
        b.error_trace = Some(error_trace);
        b
    }

    /// A comma-separated list of filters used to reduce the response.
    pub fn filter_path(self, filter_path: Vec<String>) -> (b: Self)
        ensures
            b == (SlmPutLifecycle { filter_path: Some(filter_path), ..self }),
    {
        let mut b = self;
        b.filter_path = Some(filter_path);
        b
    }

    /// Return human readable values for statistics.
    pub fn human(self, human: bool) -> (b: Self)
        ensures
            b == (SlmPutLifecycle { human: Some(human), ..self }),
    {
        let mut b = self;
        b.human = Some(human);
        b
    }

    /// Pretty format the returned JSON response.
    pub fn pretty(self, pretty: bool) -> (b: Self)
        ensures
            b == (SlmPutLifecycle { pretty: Some(pretty), ..self }),
    {
        let mut b = self;
        b.pretty = Some(pretty);
        b
    }

    /// The URL-encoded request definition.
    pub fn source(self, source: String) -> (b: Self)
        ensures
            b == (SlmPutLifecycle { source: Some(source), ..self }),
    {
        let mut b = self;
        b.source = Some(source);
        b
    }

    /// Adds a HTTP header.
    pub fn header(self, key: String, value: String) -> (b: Self)
        ensures
            b.headers@ == insert_header(self.headers@, key@, value@),
            b == (SlmPutLifecycle { headers: b.headers, ..self }),
    {
        let mut b = self;
        b.headers.insert(key, value);
        b
    }

    /// Assembles the request this builder describes.
    pub fn request(self) -> (r: HttpRequest)
        ensures
            r.method == Method::Put,
            r.path@ == slm_put_lifecycle_url(self.parts),
            pairs_view(r.query@) == query_params(
                self.error_trace,
                self.filter_path.deep_view(),
                self.human,
                self.pretty,
                self.source.deep_view(),
            ),
            r.headers == self.headers,
            r.body == self.body,
    {
        let query = build_query(
            &self.error_trace,
            &self.filter_path,
            &self.human,
            &self.pretty,
            &self.source,
        );
        let path = self.parts.url();
        HttpRequest { method: Method::Put, path, query, headers: self.headers, body: self.body }
    }
}

// ---------------------------------------------------------------------------
// Start
// ---------------------------------------------------------------------------

/// API parts for the start endpoint.
#[derive(Debug, Clone, PartialEq)]
pub enum SlmStartParts {
    NoParts,
}

/// The URL path the start parts render.
pub open spec fn slm_start_url(parts: SlmStartParts) -> Seq<char> {
    match parts {
        SlmStartParts::NoParts => "/_slm/start"@,
    }
}

impl SlmStartParts {
    /// Builds a relative URL path to the start endpoint.
    pub fn url(self) -> (p: String)
        ensures
            p@ == slm_start_url(self),
    {
        match self {
            SlmStartParts::NoParts => String::from_str("/_slm/start"),
        }
    }
}

/// Builder for the start endpoint, which turns on snapshot lifecycle management.
pub struct SlmStart<'a> {
    pub client: &'a Elasticsearch,
    pub parts: SlmStartParts,
    pub body: Option<String>,
    pub error_trace: Option<bool>,
    pub filter_path: Option<Vec<String>>,
    pub headers: Headers,
    pub human: Option<bool>,
    pub pretty: Option<bool>,
    pub source: Option<String>,
}

impl<'a> SlmStart<'a> {
    /// A new builder with no options set.
    pub fn new(client: &'a Elasticsearch) -> (b: SlmStart<'a>)
        ensures
            b.client == client,
            b.parts == SlmStartParts::NoParts,
            b.body is None,
            b.error_trace is None,
            b.filter_path is None,
            b.headers@ == Seq::<(Seq<char>, Seq<char>)>::empty(),
            b.human is None,
            b.pretty is None,
            b.source is None,
    {
        SlmStart {
            client,
            parts: SlmStartParts::NoParts,
            headers: Headers::new(),
            body: None,
            error_trace: None,
            filter_path: None,
            human: None,
            pretty: None,
            source: None,
        }
    }

    /// The body for the API call.
    pub fn body(self, body: String) -> (b: Self)
        ensures
            b == (SlmStart { body: Some(body), ..self }),
    {
        let mut b = self;
        b.body = Some(body);
        b
    }

    /// Include the stack trace of returned errors.
    pub fn error_trace(self, error_trace: bool) -> (b: Self)
        ensures
            b == (SlmStart { error_trace: Some(error_trace), ..self }),
    {
        let mut b = self;
        b.error_trace = Some(error_trace);
        b
    }

    /// A comma-separated list of filters used to reduce the response.
    pub fn filter_path(self, filter_path: Vec<String>) -> (b: Self)
        ensures
            b == (SlmStart { filter_path: Some(filter_path), ..self }),
    {
        let mut b = self;
        b.filter_path = Some(filter_path);
        b
    }

    /// Return human readable values for statistics.
    pub fn human(self, human: bool) -> (b: Self)
        ensures
            b == (SlmStart { human: Some(human), ..self }),
    {
        let mut b = self;
        b.human = Some(human);
        b
    }

    /// Pretty format the returned JSON response.
    pub fn pretty(self, pretty: bool) -> (b: Self)
        ensures
            b == (SlmStart { pretty: Some(pretty), ..self }),
    {
        let mut b = self;
        b.pretty = Some(pretty);
        b
    }

    /// The URL-encoded request definition.
    pub fn source(self, source: String) -> (b: Self)
        ensures
            b == (SlmStart { source: Some(source), ..self }),
    {
        let mut b = self;
        b.source = Some(source);
        b
    }

    /// Adds a HTTP header.
    pub fn header(self, key: String, value: String) -> (b: Self)
        ensures
            b.headers@ == insert_header(self.headers@, key@, value@),
            b == (SlmStart { headers: b.headers, ..self }),
    {
        let mut b = self;
        b.headers.insert(key, value);
        b
    }

    /// Assembles the request this builder describes.
    pub fn request(self) -> (r: HttpRequest)
        ensures
            r.method == Method::Post,
            r.path@ == slm_start_url(self.parts),
            pairs_view(r.query@) == query_params(
                self.error_trace,
                self.filter_path.deep_view(),
                self.human,
                self.pretty,
                self.source.deep_view(),
            ),
            r.headers == self.headers,
            r.body == self.body,
    {
        let query = build_query(
            &self.error_trace,
            &self.filter_path,
            &self.human,
            &self.pretty,
            &self.source,
        );
        let path = self.parts.url();
        HttpRequest { method: Method::Post, path, query, headers: self.headers, body: self.body }
    }
}

// ---------------------------------------------------------------------------
// Stop
// ---------------------------------------------------------------------------

/// API parts for the stop endpoint.
#[derive(Debug, Clone, PartialEq)]
pub enum SlmStopParts {
    NoParts,
}

/// The URL path the stop parts render.
pub open spec fn slm_stop_url(parts: SlmStopParts) -> Seq<char> {
    match parts {
        SlmStopParts::NoParts => "/_slm/stop"@,
    }
}

impl SlmStopParts {
    /// Builds a relative URL path to the stop endpoint.
    pub fn url(self) -> (p: String)
        ensures
            p@ == slm_stop_url(self),
    {
        match self {
            SlmStopParts::NoParts => String::from_str("/_slm/stop"),
        }
    }
}

/// Builder for the stop endpoint, which turns off snapshot lifecycle management.
pub struct SlmStop<'a> {
    pub client: &'a Elasticsearch,
    pub parts: SlmStopParts,
    pub body: Option<String>,
    pub error_trace: Option<bool>,
    pub filter_path: Option<Vec<String>>,
    pub headers: Headers,
    pub human: Option<bool>,
    pub pretty: Option<bool>,
    pub source: Option<String>,
}

impl<'a> SlmStop<'a> {
    /// A new builder with no options set.
    pub fn new(client: &'a Elasticsearch) -> (b: SlmStop<'a>)
        ensures
            b.client == client,
            b.parts == SlmStopParts::NoParts,
            b.body is None,
            b.error_trace is None,
            b.filter_path is None,
            b.headers@ == Seq::<(Seq<char>, Seq<char>)>::empty(),
            b.human is None,
            b.pretty is None,
            b.source is None,
    {
        SlmStop {
            client,
            parts: SlmStopParts::NoParts,
            headers: Headers::new(),
            body: None,
            error_trace: None,
            filter_path: None,
            human: None,
            pretty: None,
            source: None,
        }
    }

    /// The body for the API call.
    pub fn body(self, body: String) -> (b: Self)
        ensures
            b == (SlmStop { body: Some(body), ..self }),
    {
        let mut b = self;
        b.body = Some(body);
        b
    }

    /// Include the stack trace of returned errors.
    pub fn error_trace(self, error_trace: bool) -> (b: Self)
        ensures
            b == (SlmStop { error_trace: Some(error_trace), ..self }),
    {
        let mut b = self;
        b.error_trace = Some(error_trace);
        b
    }

    /// A comma-separated list of filters used to reduce the response.
    pub fn filter_path(self, filter_path: Vec<String>) -> (b: Self)
        ensures
            b == (SlmStop { filter_path: Some(filter_path), ..self }),
    {
        let mut b = self;
        b.filter_path = Some(filter_path);
        b
    }

    /// Return human readable values for statistics.
    pub fn human(self, human: bool) -> (b: Self)
        ensures
            b == (SlmStop { human: Some(human), ..self }),
    {
        let mut b = self;
        b.human = Some(human);
        b
    }

    /// Pretty format the returned JSON response.
    pub fn pretty(self, pretty: bool) -> (b: Self)
        ensures
            b == (SlmStop { pretty: Some(pretty), ..self }),
    {
        let mut b = self;
        b.pretty = Some(pretty);
        b
    }

    /// The URL-encoded request definition.
    pub fn source(self, source: String) -> (b: Self)
        ensures
            b == (SlmStop { source: Some(source), ..self }),
    {
        let mut b = self;
        b.source = Some(source);
        b
    }

    /// Adds a HTTP header.
    pub fn header(self, key: String, value: String) -> (b: Self)
        ensures
            b.headers@ == insert_header(self.headers@, key@, value@),
            b == (SlmStop { headers: b.headers, ..self }),
    {
        let mut b = self;
        b.headers.insert(key, value);
        b
    }

    /// Assembles the request this builder describes.
    pub fn request(self) -> (r: HttpRequest)
        ensures
            r.method == Method::Post,
            r.path@ == slm_stop_url(self.parts),
            pairs_view(r.query@) == query_params(
                self.error_trace,
                self.filter_path.deep_view(),
                self.human,
                self.pretty,
                self.source.deep_view(),
            ),
            r.headers == self.headers,
            r.body == self.body,
    {
        let query = build_query(
            &self.error_trace,
            &self.filter_path,
            &self.human,
            &self.pretty,
            &self.source,
        );
        let path = self.parts.url();
        HttpRequest { method: Method::Post, path, query, headers: self.headers, body: self.body }
    }
}

// ---------------------------------------------------------------------------
// The namespace client
// ---------------------------------------------------------------------------

/// Namespace client for the snapshot-lifecycle-management endpoints.
pub struct Slm<'a> {
    pub client: &'a Elasticsearch,
}

impl<'a> Slm<'a> {
    /// A namespace client over the given client handle.
    pub fn new(client: &'a Elasticsearch) -> (s: Slm<'a>)
        ensures
            s.client == client,
    {
        Slm { client }
    }

    /// A builder for the delete-lifecycle endpoint.
    pub fn delete_lifecycle(&self, parts: SlmDeleteLifecycleParts) -> (b: SlmDeleteLifecycle<'a>)
        ensures
            b.client == self.client,
            b.parts == parts,
            b.error_trace is None,
            b.filter_path is None,
            b.headers@ == Seq::<(Seq<char>, Seq<char>)>::empty(),
            b.human is None,
            b.pretty is None,
            b.source is None,
    {
        SlmDeleteLifecycle::new(self.client, parts)
    }

    /// A builder for the execute-lifecycle endpoint.
    pub fn execute_lifecycle(&self, parts: SlmExecuteLifecycleParts) -> (b: SlmExecuteLifecycle<
        'a,
    >)
        ensures
            b.client == self.client,
            b.parts == parts,
            b.error_trace is None,
            b.filter_path is None,
            b.headers@ == Seq::<(Seq<char>, Seq<char>)>::empty(),
            b.human is None,
            b.pretty is None,
            b.source is None,
            b.body is None,
    {
        SlmExecuteLifecycle::new(self.client, parts)
    }

    /// A builder for the execute-retention endpoint.
    pub fn execute_retention(&self) -> (b: SlmExecuteRetention<'a>)
        ensures
            b.client == self.client,
            b.parts == SlmExecuteRetentionParts::NoParts,
            b.error_trace is None,
            b.filter_path is None,
            b.headers@ == Seq::<(Seq<char>, Seq<char>)>::empty(),
            b.human is None,
            b.pretty is None,
            b.source is None,
            b.body is None,
    {
        SlmExecuteRetention::new(self.client)
    }

    /// A builder for the get-lifecycle endpoint.
    pub fn get_lifecycle(&self, parts: SlmGetLifecycleParts) -> (b: SlmGetLifecycle<'a>)
        ensures
            b.client == self.client,
            b.parts == parts,
            b.error_trace is None,
            b.filter_path is None,
            b.headers@ == Seq::<(Seq<char>, Seq<char>)>::empty(),
            b.human is None,
            b.pretty is None,
            b.source is None,
    {
        SlmGetLifecycle::new(self.client, parts)
    }

    /// A builder for the get-stats endpoint.
    pub fn get_stats(&self) -> (b: SlmGetStats<'a>)
        ensures
            b.client == self.client,
            b.parts == SlmGetStatsParts::NoParts,
            b.error_trace is None,
            b.filter_path is None,
            b.headers@ == Seq::<(Seq<char>, Seq<char>)>::empty(),
            b.human is None,
            b.pretty is None,
            b.source is None,
    {
        SlmGetStats::new(self.client)
    }

    /// A builder for the get-status endpoint.
    pub fn get_status(&self) -> (b: SlmGetStatus<'a>)
        ensures
            b.client == self.client,
            b.parts == SlmGetStatusParts::NoParts,
            b.error_trace is None,
            b.filter_path is None,
            b.headers@ == Seq::<(Seq<char>, Seq<char>)>::empty(),
            b.human is None,
            b.pretty is None,
            b.source is None,
    {
        SlmGetStatus::new(self.client)
    }

    /// A builder for the put-lifecycle endpoint.
    pub fn put_lifecycle(&self, parts: SlmPutLifecycleParts) -> (b: SlmPutLifecycle<'a>)
        ensures
            b.client == self.client,
            b.parts == parts,
            b.error_trace is None,
            b.filter_path is None,
            b.headers@ == Seq::<(Seq<char>, Seq<char>)>::empty(),
            b.human is None,
            b.pretty is None,
            b.source is None,
            b.body is None,
    {
        SlmPutLifecycle::new(self.client, parts)
    }

    /// A builder for the start endpoint.
    pub fn start(&self) -> (b: SlmStart<'a>)
        ensures
            b.client == self.client,
            b.parts == SlmStartParts::NoParts,
            b.error_trace is None,
            b.filter_path is None,
            b.headers@ == Seq::<(Seq<char>, Seq<char>)>::empty(),
            b.human is None,
            b.pretty is None,
            b.source is None,
            b.body is None,
    {
        SlmStart::new(self.client)
    }

    /// A builder for the stop endpoint.
    pub fn stop(&self) -> (b: SlmStop<'a>)
        ensures
            b.client == self.client,
            b.parts == SlmStopParts::NoParts,
            b.error_trace is None,
            b.filter_path is None,
            b.headers@ == Seq::<(Seq<char>, Seq<char>)>::empty(),
            b.human is None,
            b.pretty is None,
            b.source is None,
            b.body is None,
    {
        SlmStop::new(self.client)
    }
}

impl Elasticsearch {
    /// A namespace client for the snapshot-lifecycle-management endpoints.
    pub fn slm(&self) -> (s: Slm<'_>)
        ensures
            s.client == self,
    {
        Slm::new(self)
    }
}


} // verus!
