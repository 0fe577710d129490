//! The trace-query API: the endpoint registry, the query-parameter builder,
//! and the client that assembles a fully parameterized request.

use vstd::prelude::*;
use vstd::string::StringExecFns;
use crate::digits::{dec_str, format_usize};
use crate::http::{
    get_request, request_base, request_headers, request_method, request_ok, request_queries,
    url_base, url_ok, url_query_pairs, with_query,
};

verus! {

/// The logical operations the backend's query API offers.
pub enum Endpoint {
    Traces,
}

impl Endpoint {
    /// The URL path fragment of the operation.
    pub open spec fn path_spec(self) -> Seq<char> {
        match self {
            Endpoint::Traces => "/api/traces"@,
        }
    }

    /// Renders the operation's URL path fragment.
    pub fn path(&self) -> (r: &'static str)
        ensures
            r@ == self.path_spec(),
    {
        match self {
            Endpoint::Traces => "/api/traces",
        }
    }
}

/// Joins a base URL and an operation's path fragment into the full request
/// URL. The fragment starts with the path separator, so a base URL without a
/// trailing slash yields a well-formed URL.
pub fn endpoint(url: &str, ep: Endpoint) -> (r: String)
    ensures
        r@ == url@ + ep.path_spec(),
{
    let path = ep.path();
    url.to_owned().concat(path)
}

/// The optional filters of a trace query, as an external caller supplies them.
pub struct QueryConfig {
    /// Maximum number of traces to return.
    pub limit: Option<usize>,
    /// Ask the backend for human-readable formatting.
    pub pretty_print: bool,
    /// Lower bound of the time range, in epoch-microseconds.
    pub start: Option<usize>,
    /// Upper bound of the time range, in epoch-microseconds.
    pub end: Option<usize>,
}

/// The rendering of `pretty_print`: exactly `"true"` or `"false"`.
pub open spec fn bool_str(b: bool) -> Seq<char> {
    if b {
        "true"@
    } else {
        "false"@
    }
}

/// Renders a boolean as `bool_str` defines it.
pub fn bool_to_str(b: bool) -> (r: &'static str)
    ensures
        r@ == bool_str(b),
{
    if b {
        "true"
    } else {
        "false"
    }
}

/// The query pair an optional parameter contributes: one pair with the value
/// in decimal when the parameter is set, nothing when it is not.
pub open spec fn opt_param(key: Seq<char>, v: Option<usize>) -> Seq<(Seq<char>, Seq<char>)> {
    match v {
        Some(n) => seq![(key, dec_str(n as nat))],
        None => Seq::empty(),
    }
}

/// The full list of query pairs a trace query sends: `service` and
/// `pretty_print` always, then `start`, `end` and `limit` each only when set.
pub open spec fn query_pairs_spec(
    service: Seq<char>,
    start: Option<usize>,
    end: Option<usize>,
    limit: Option<usize>,
    pretty_print: bool,
) -> Seq<(Seq<char>, Seq<char>)> {
    seq![("service"@, service), ("pretty_print"@, bool_str(pretty_print))] + opt_param("start"@, start)
        + opt_param("end"@, end) + opt_param("limit"@, limit)
}

/// The view of a vector of rendered query pairs.
pub open spec fn pairs_view(v: Seq<(String, String)>) -> Seq<(Seq<char>, Seq<char>)> {
    v.map_values(|p: (String, String)| (p.0@, p.1@))
}

/// Accumulates the query parameters of a trace query: the required service
/// name, the optional filters, and the pretty-print flag.
pub struct ParamBuilder<'a> {
    pub start: Option<usize>,
    pub end: Option<usize>,
    pub limit: Option<usize>,
    pub pretty_print: bool,
    pub service: &'a str,
}

impl<'a> ParamBuilder<'a> {
    /// The builder with `start` replaced and every other field kept.
    pub open spec fn with_start(self, v: Option<usize>) -> Self {
        ParamBuilder { start: v, ..self }
    }

    /// The builder with `end` replaced and every other field kept.
    pub open spec fn with_end(self, v: Option<usize>) -> Self {
        ParamBuilder { end: v, ..self }
    }

    /// The builder with `limit` replaced and every other field kept.
    pub open spec fn with_limit(self, v: Option<usize>) -> Self {
        ParamBuilder { limit: v, ..self }
    }

    /// The builder with `pretty_print` replaced and every other field kept.
    pub open spec fn with_pretty_print(self, v: bool) -> Self {
        ParamBuilder { pretty_print: v, ..self }
    }

    /// The query pairs this builder will apply.
    pub open spec fn pairs_spec(self) -> Seq<(Seq<char>, Seq<char>)> {
        query_pairs_spec(self.service@, self.start, self.end, self.limit, self.pretty_print)
    }

    /// A fresh builder: the service name is required, every filter is unset,
    /// and pretty-printing is off.
    pub fn new(service: &'a str) -> (r: Self)
        requires
            service@.len() != 0,
        ensures
            r == (ParamBuilder { start: None, end: None, limit: None, pretty_print: false, service }),
    {
        Self { start: None, end: None, pretty_print: false, limit: None, service }
    }

    /// Sets (or clears) the lower time bound; a later call overwrites it.
    pub fn start(self, start: Option<usize>) -> (r: Self)
        ensures
            r == self.with_start(start),
    {
        ParamBuilder { start, ..self }
    }

    /// Sets (or clears) the upper time bound; a later call overwrites it.
    pub fn end(self, end: Option<usize>) -> (r: Self)
        ensures
            r == self.with_end(end),
    {
        ParamBuilder { end, ..self }
    }

    /// Sets (or clears) the result-count limit; a later call overwrites it.
    pub fn limit(self, limit: Option<usize>) -> (r: Self)
        ensures
            r == self.with_limit(limit),
    {
        ParamBuilder { limit, ..self }
    }

    /// Sets the pretty-print flag; a later call overwrites it.
    pub fn pretty_print(self, pretty_print: bool) -> (r: Self)
        ensures
            r == self.with_pretty_print(pretty_print),
    {
        ParamBuilder { pretty_print, ..self }
    }

    /// Renders the query pairs this builder will apply, in the order they are
    /// sent: `service`, `pretty_print`, then each filter that is set.
    pub fn query_pairs(&self) -> (r: Vec<(String, String)>)
        ensures
            pairs_view(r@) == self.pairs_spec(),
    {
        let mut v: Vec<(String, String)> = Vec::new();
        v.push(("service".to_owned(), self.service.to_owned()));
        v.push(("pretty_print".to_owned(), bool_to_str(self.pretty_print).to_owned()));
        if let Some(start) = self.start {
            v.push(("start".to_owned(), format_usize(start)));
        }
        if let Some(end) = self.end {
            v.push(("end".to_owned(), format_usize(end)));
        }
        if let Some(limit) = self.limit {
            v.push(("limit".to_owned(), format_usize(limit)));
        }
        proof {
            assert(pairs_view(v@) =~= self.pairs_spec());
        }
        v
    }

    /// Applies every query pair onto the outgoing request. When the request's
    /// URL is accepted, the pairs are appended after the URL's own query
    /// pairs, in order; otherwise the request is left unchanged. Apart from
    /// its query pairs the request is untouched: its method, its header lines
    /// and its URL apart from the query are those of `req`.
    pub fn build(self, req: ureq::Request) -> (r: ureq::Request)
        ensures
            request_method(r) == request_method(req),
            request_headers(r) == request_headers(req),
            request_base(r) == request_base(req),
            request_ok(r) == request_ok(req),
            request_ok(req) ==> request_queries(r) == request_queries(req) + self.pairs_spec(),
            !request_ok(req) ==> request_queries(r) == request_queries(req),
    {
        let pairs = self.query_pairs();
        let ghost req0 = req;
        let mut req = req;
        let mut i: usize = 0;
        while i < pairs.len()
            invariant
                i <= pairs.len(),
                pairs_view(pairs@) == self.pairs_spec(),
                request_method(req) == request_method(req0),
                request_headers(req) == request_headers(req0),
                request_base(req) == request_base(req0),
                request_ok(req) == request_ok(req0),
                request_ok(req0) ==> request_queries(req) == request_queries(req0) + pairs_view(
                    pairs@,
                ).take(i as int),
                !request_ok(req0) ==> request_queries(req) == request_queries(req0),
            decreases pairs.len() - i,
        {
            proof {
                assert(pairs_view(pairs@).take(i + 1 as int) =~= pairs_view(pairs@).take(
                    i as int,
                ).push(pairs_view(pairs@)[i as int]));
            }
            let p = &pairs[i];
            req = with_query(req, p.0.as_str(), p.1.as_str());
            i = i + 1;
        }
        proof {
            assert(pairs_view(pairs@).take(pairs@.len() as int) =~= pairs_view(pairs@));
            if request_ok(req0) {
                assert(request_queries(req) =~= request_queries(req0) + self.pairs_spec());
            }
        }
        req
    }
}

/// With every filter unset and pretty-printing off, the query carries exactly
/// two parameters: the service name and `pretty_print=false`.
pub proof fn lemma_minimal_query(service: Seq<char>)
    ensures
        query_pairs_spec(service, None, None, None, false) == seq![
            ("service"@, service),
            ("pretty_print"@, "false"@),
        ],
{
    assert(query_pairs_spec(service, None, None, None, false) =~= seq![
        ("service"@, service),
        ("pretty_print"@, "false"@),
    ]);
}

/// The keys of the five query parameters are pairwise distinct strings.
proof fn lemma_keys_distinct()
    ensures
        "service"@ != "start"@,
        "pretty_print"@ != "start"@,
        "end"@ != "start"@,
        "limit"@ != "start"@,
        "service"@ != "pretty_print"@,
        "start"@ != "pretty_print"@,
        "end"@ != "pretty_print"@,
        "limit"@ != "pretty_print"@,
{
    reveal_strlit("service");
    reveal_strlit("pretty_print");
    reveal_strlit("start");
    reveal_strlit("end");
    reveal_strlit("limit");
    assert("service"@.len() == 7);
    assert("pretty_print"@.len() == 12);
    assert("start"@.len() == 5);
    assert("end"@.len() == 3);
    assert("limit"@.len() == 5);
    assert("limit"@[0] != "start"@[0]);
}

/// Whenever the lower time bound is set to `n`, the query carries the pair
/// `start=<n in decimal>` exactly once — at the third position, with no other
/// pair under the key `start` — whatever the other parameters are, and with
/// the full precision of `n`.
pub proof fn lemma_start_exact(
    service: Seq<char>,
    n: usize,
    end: Option<usize>,
    limit: Option<usize>,
    pretty_print: bool,
)
    ensures
        ({
            let q = query_pairs_spec(service, Some(n), end, limit, pretty_print);
            &&& q.len() > 2
            &&& q[2] == ("start"@, dec_str(n as nat))
            &&& forall|i: int| 0 <= i < q.len() && i != 2 ==> (#[trigger] q[i]).0 != "start"@
        }),
{
    lemma_keys_distinct();
    let q = query_pairs_spec(service, Some(n), end, limit, pretty_print);
    assert forall|i: int| 0 <= i < q.len() && i != 2 implies (#[trigger] q[i]).0 != "start"@ by {
        assert(q[0].0 == "service"@);
        assert(q[1].0 == "pretty_print"@);
        if i > 2 {
            assert(q[i].0 == "end"@ || q[i].0 == "limit"@);
        }
    }
}

/// The query always carries `pretty_print` exactly once — at the second
/// position, with no other pair under that key — and its value is exactly
/// `"true"` or `"false"`.
pub proof fn lemma_pretty_print_always(
    service: Seq<char>,
    start: Option<usize>,
    end: Option<usize>,
    limit: Option<usize>,
    pretty_print: bool,
)
    ensures
        ({
            let q = query_pairs_spec(service, start, end, limit, pretty_print);
            &&& q.len() > 1
            &&& q[1] == ("pretty_print"@, bool_str(pretty_print))
            &&& bool_str(pretty_print) == if pretty_print {
                "true"@
            } else {
                "false"@
            }
            &&& forall|i: int| 0 <= i < q.len() && i != 1 ==> (#[trigger] q[i]).0
                != "pretty_print"@
        }),
{
    lemma_keys_distinct();
    let q = query_pairs_spec(service, start, end, limit, pretty_print);
    assert forall|i: int| 0 <= i < q.len() && i != 1 implies (#[trigger] q[i]).0
        != "pretty_print"@ by {
        assert(q[0].0 == "service"@);
        if i > 1 {
            assert(q[i].0 == "start"@ || q[i].0 == "end"@ || q[i].0 == "limit"@);
        }
    }
}

/// Setting the lower time bound twice keeps only the last value: the builder
/// ends up exactly as if it had been set once.
pub proof fn lemma_start_overwrites(b: ParamBuilder<'_>, v1: Option<usize>, v2: Option<usize>)
    ensures
        b.with_start(v1).with_start(v2) == b.with_start(v2),
{
}

/// Setting the upper time bound twice keeps only the last value.
pub proof fn lemma_end_overwrites(b: ParamBuilder<'_>, v1: Option<usize>, v2: Option<usize>)
    ensures
        b.with_end(v1).with_end(v2) == b.with_end(v2),
{
}

/// Setting the result-count limit twice keeps only the last value.
pub proof fn lemma_limit_overwrites(b: ParamBuilder<'_>, v1: Option<usize>, v2: Option<usize>)
    ensures
        b.with_limit(v1).with_limit(v2) == b.with_limit(v2),
{
}

/// Setting the pretty-print flag twice keeps only the last value.
pub proof fn lemma_pretty_print_overwrites(b: ParamBuilder<'_>, v1: bool, v2: bool)
    ensures
        b.with_pretty_print(v1).with_pretty_print(v2) == b.with_pretty_print(v2),
{
}

/// A client of the tracing backend's query API: the base URL the backend
/// listens on (protocol and port included) and the service whose traces are
/// queried.
pub struct JaegerApi<'a> {
    /// URL where the backend is listening, including protocol and port, with
    /// no trailing slash, e.g. `http://localhost:16686`.
    pub url: &'a str,
    /// Name of the service whose traces are queried; never empty.
    pub service: &'a str,
}

impl<'a> JaegerApi<'a> {
    /// A client is well-formed when its service name is non-empty.
    pub open spec fn wf(self) -> bool {
        self.service@.len() != 0
    }

    /// A client for the backend at `url`, querying traces of `service`.
    pub fn new(url: &'a str, service: &'a str) -> (r: Self)
        requires
            service@.len() != 0,
        ensures
            r.url == url,
            r.service == service,
            r.wf(),
    {
        Self { url, service }
    }

    /// Builds the GET request for the trace query: it carries no header
    /// lines, targets the traces endpoint URL joined onto the base URL, and
    /// applies the service name, the pretty-print flag and each filter of
    /// `app` that is set as query parameters. When the joined URL is
    /// accepted, the request's target apart from its query is exactly that
    /// URL and it carries exactly those pairs after the URL's own;
    /// dispatching the request is the caller's task.
    pub fn traces_request(&self, app: &QueryConfig) -> (r: ureq::Request)
        requires
            self.wf(),
        ensures
            request_method(r) == "GET"@,
            request_headers(r) == Seq::<Seq<u8>>::empty(),
            request_ok(r) == url_ok(self.url@ + Endpoint::Traces.path_spec()),
            request_ok(r) ==> request_base(r) == url_base(
                self.url@ + Endpoint::Traces.path_spec(),
            ),
            request_ok(r) ==> request_queries(r) == url_query_pairs(
                self.url@ + Endpoint::Traces.path_spec(),
            ) + query_pairs_spec(self.service@, app.start, app.end, app.limit, app.pretty_print),
    {
        let url = endpoint(self.url, Endpoint::Traces);
        let req = get_request(url.as_str());
        ParamBuilder::new(self.service).limit(app.limit).pretty_print(app.pretty_print).start(
            app.start,
        ).end(app.end).build(req)
    }
}

} // verus!
