//! Plain models of the HTTP-side values the harness works with: methods,
//! headers, responses reduced to their status code, transport errors, and
//! the client handle a request builder is bound to.  Sending bytes over a
//! network is left to the surrounding program; everything here is data.

use vstd::prelude::*;
use vstd::string::*;
use crate::text::dec_digits;

verus! {

/// HTTP method of a request.
#[derive(Clone, Copy, PartialEq, Eq, Structural, Debug)]
pub enum Method {
    Get,
    Put,
    Post,
    Delete,
    Head,
}

// ---------------------------------------------------------------------------
// Headers
// ---------------------------------------------------------------------------

/// An ordered list of header name/value pairs.  Inserting under an existing
/// name replaces the first entry carrying it.
#[derive(Debug)]
pub struct Headers {
    pub entries: Vec<(String, String)>,
}

impl View for Headers {
    type V = Seq<(Seq<char>, Seq<char>)>;

    open spec fn view(&self) -> Seq<(Seq<char>, Seq<char>)> {
        Seq::new(self.entries@.len(), |i: int| (self.entries@[i].0@, self.entries@[i].1@))
    }
}

/// `m` with `value` stored under `name`: the first entry named `name` is
/// replaced, or a new entry is appended when none carries that name.
pub open spec fn insert_header(
    m: Seq<(Seq<char>, Seq<char>)>,
    name: Seq<char>,
    value: Seq<char>,
) -> Seq<(Seq<char>, Seq<char>)>
    decreases m.len(),
{
    if m.len() == 0 {
        seq![(name, value)]
    } else if m[0].0 == name {
        seq![(name, value)] + m.drop_first()
    } else {
        seq![m[0]] + insert_header(m.drop_first(), name, value)
    }
}

impl Headers {
    /// An empty header list.
    pub fn new() -> (h: Headers)
        ensures
            h@ =~= Seq::<(Seq<char>, Seq<char>)>::empty(),
    {
        Headers { entries: Vec::new() }
    }

    /// The number of entries.
    pub fn len(&self) -> (n: usize)
        ensures
            n == self@.len(),
    {
        self.entries.len()
    }

    /// The name and value of the entry at `i`.
    pub fn get(&self, i: usize) -> (e: (&String, &String))
        requires
            i < self@.len(),
        ensures
            e.0@ == self@[i as int].0,
            e.1@ == self@[i as int].1,
    {
        (&self.entries[i].0, &self.entries[i].1)
    }

    /// Stores `value` under `name`, replacing the first entry of that name.
    pub fn insert(&mut self, name: String, value: String)
        ensures
            final(self)@ == insert_header(old(self)@, name@, value@),
    {
        let ghost m = self@;
        proof {
            assert(m.skip(0int) =~= m);
            assert(m.take(0int) + insert_header(m.skip(0int), name@, value@) =~= insert_header(
                m,
                name@,
                value@,
            ));
        }
        let mut i: usize = 0;
        while i < self.entries.len()
            invariant
                self == old(self),
                m == self@,
                i <= m.len(),
                forall|j: int| 0 <= j < i ==> #[trigger] m[j].0 != name@,
                insert_header(m, name@, value@) == m.take(i as int) + insert_header(
                    m.skip(i as int),
                    name@,
                    value@,
                ),
            decreases m.len() - i,
        {
            proof {
                assert(m.skip(i as int)[0] == m[i as int]);
            }
            if compare_strings(&self.entries[i].0, &name) {
                proof {
                    assert(m.skip(i as int).drop_first() =~= m.skip(i + 1));
                    assert(insert_header(m.skip(i as int), name@, value@) =~= seq![
                        (name@, value@),
                    ] + m.skip(i + 1));
                }
                self.entries[i] = (name, value);
                proof {
                    assert(self@ =~= m.take(i as int) + seq![(name@, value@)] + m.skip(i + 1));
                    assert(self@ =~= insert_header(m, name@, value@));
                }
                return;
            }
            proof {
                assert(m.skip(i as int).drop_first() =~= m.skip(i + 1));
                assert(insert_header(m.skip(i as int), name@, value@) =~= seq![m[i as int]]
                    + insert_header(m.skip(i + 1), name@, value@));
                assert(m.take(i as int) + seq![m[i as int]] =~= m.take(i + 1));
                assert(m.take(i as int) + insert_header(m.skip(i as int), name@, value@) =~= m.take(
                    i + 1,
                ) + insert_header(m.skip(i + 1), name@, value@));
            }
            i += 1;
        }
        proof {
            assert(m.skip(m.len() as int) =~= Seq::<(Seq<char>, Seq<char>)>::empty());
            assert(insert_header(m.skip(m.len() as int), name@, value@) =~= seq![(name@, value@)]);
        }
        self.entries.push((name, value));
        proof {
            assert(self@ =~= m.take(m.len() as int) + seq![(name@, value@)]);
            assert(m.take(m.len() as int) =~= m);
        }
    }
}

fn compare_strings(a: &String, b: &String) -> (r: bool)
    ensures
        r == (a@ == b@),
{
    *a == *b
}

// ---------------------------------------------------------------------------
// Errors and responses
// ---------------------------------------------------------------------------

/// A transport-level failure: the exchange could not be completed, or a
/// completed response carried a failure status code.
#[derive(Debug)]
pub struct ClientError {
    pub message: String,
}

/// The message a status-code failure carries.
pub open spec fn status_message(status: u16) -> Seq<char> {
    "status code "@ + dec_digits(status as nat)
}

impl ClientError {
    /// An error with the given message.
    pub fn new(message: String) -> (e: ClientError)
        ensures
            e.message == message,
    {
        ClientError { message }
    }

    /// The error for a response whose status code denotes failure.
    pub fn for_status_code(status: u16) -> (e: ClientError)
        ensures
            e.message@ == status_message(status),
    {
        let mut m = String::from_str("status code ");
        let digits = crate::text::render_u64(status as u64);
        m.append(digits.as_str());
        ClientError { message: m }
    }

    /// The message text.
    pub fn message(&self) -> (m: &String)
        ensures
            m == &self.message,
    {
        &self.message
    }
}

/// Whether a status code denotes success.
pub open spec fn is_success_code(c: u16) -> bool {
    200 <= c && c < 300
}

/// One completed HTTP exchange, reduced to what the harness reads from it.
#[derive(Clone, Copy, PartialEq, Eq, Structural, Debug)]
pub struct HttpResponse {
    pub status: u16,
}

impl HttpResponse {
    /// A response carrying the given status code.
    pub fn new(status: u16) -> (r: HttpResponse)
        ensures
            r.status == status,
    {
        HttpResponse { status }
    }

    /// The response's status code.
    pub fn status_code(&self) -> (c: u16)
        ensures
            c == self.status,
    {
        self.status
    }

    /// Succeeds exactly when the status code denotes success; otherwise the
    /// status-based error.
    pub fn error_for_status_code(&self) -> (r: Result<(), ClientError>)
        ensures
            r is Ok <==> is_success_code(self.status),
            r matches Err(e) ==> e.message@ == status_message(self.status),
    {
        if 200 <= self.status && self.status < 300 {
            Ok(())
        } else {
            Err(ClientError::for_status_code(self.status))
        }
    }
}

// ---------------------------------------------------------------------------
// Requests, transports and clients
// ---------------------------------------------------------------------------

/// A fully assembled request, ready for a transport to send.
#[derive(Debug)]
pub struct HttpRequest {
    pub method: Method,
    pub path: String,
    pub query: Vec<(String, String)>,
    pub headers: Headers,
    pub body: Option<String>,
}

/// Connection settings for one service endpoint.
#[derive(Debug)]
pub struct Transport {
    pub url: String,
}

impl Transport {
    /// A transport that addresses the single node at `url`.
    pub fn single_node(url: &str) -> (t: Transport)
        ensures
            t.url@ == url@,
    {
        Transport { url: String::from_str(url) }
    }
}

/// A client handle bound to one service endpoint.
#[derive(Debug)]
pub struct Elasticsearch {
    pub transport: Transport,
}

impl Elasticsearch {
    /// A client over the given transport.
    pub fn new(transport: Transport) -> (c: Elasticsearch)
        ensures
            c.transport == transport,
    {
        Elasticsearch { transport }
    }
}

} // verus!
