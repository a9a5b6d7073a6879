//! The client layer: building each request the service understands,
//! validating inputs before anything is sent, and concluding each
//! operation from the transport's outcome.  The transport itself (the
//! HTTP send) lives outside this crate; it receives an `ApiRequest` and
//! hands back an `HttpOutcome`.

use crate::check::{same_core, spec_id, Check};
use crate::error::ApiError;
use crate::payload::{add_payload, build_add_payload};
use crate::text::{before_hyphen, contains_sub, last_segment, str_contains};
use vstd::prelude::*;
use vstd::string::*;

verus! {

/// HTTP verb of a client request.
#[derive(Clone, Copy, Debug, PartialEq, Eq, Structural)]
pub enum Method {
    Get,
    Post,
    Delete,
}

/// One fully built request: everything the transport needs to send it.
/// A request with a body is sent as JSON.
#[derive(Debug)]
pub struct ApiRequest {
    pub method: Method,
    pub url: String,
    pub api_key: String,
    pub body: Option<String>,
}

/// What the transport hands back: no response at all, or a status with
/// the raw body.
#[derive(Debug)]
pub enum HttpOutcome {
    Failed { cause: String },
    Response { status: u16, body: String },
}

/// The service's fixed production endpoint.
pub open spec fn spec_default_base_url() -> Seq<char> {
    "https://healthchecks.io/api/v1/checks/"@
}

fn default_base_url() -> (r: String)
    ensures
        r@ == spec_default_base_url(),
{
    "https://healthchecks.io/api/v1/checks/".to_owned()
}

/// Whitespace as `str::trim` understands it: the Unicode White_Space
/// set (ASCII whitespace, NEL, the no-break and typographic spaces, and
/// the line and paragraph separators).
pub open spec fn is_space(c: char) -> bool {
    let n = c as u32;
    ||| n == 0x20
    ||| (0x9 <= n && n <= 0xD)
    ||| n == 0x85
    ||| n == 0xA0
    ||| n == 0x1680
    ||| (0x2000 <= n && n <= 0x200A)
    ||| n == 0x2028
    ||| n == 0x2029
    ||| n == 0x202F
    ||| n == 0x205F
    ||| n == 0x3000
}

/// `s` trims to nothing: every character is whitespace.
pub open spec fn is_blank(s: Seq<char>) -> bool {
    forall|i: int| 0 <= i < s.len() ==> is_space(s[i])
}

fn is_blank_str(s: &str) -> (r: bool)
    ensures
        r == is_blank(s@),
{
    let len = s.unicode_len();
    let mut i: usize = 0;
    while i < len
        invariant
            i <= len,
            len == s@.len(),
            forall|k: int| 0 <= k < i ==> is_space(s@[k]),
        decreases len - i,
    {
        let c = s.get_char(i);
        let n: u32 = c as u32;
        let ws = n == 0x20 || (0x9 <= n && n <= 0xD) || n == 0x85 || n == 0xA0 || n == 0x1680 || (
        0x2000 <= n && n <= 0x200A) || n == 0x2028 || n == 0x2029 || n == 0x202F || n == 0x205F
            || n == 0x3000;
        if !ws {
            return false;
        }
        i = i + 1;
    }
    true
}

/// The query a listing was filtered by, if any.
pub open spec fn spec_query(q: Option<&str>) -> Option<Seq<char>> {
    match q {
        Some(s) => Some(s@),
        None => None,
    }
}

/// `c` matches `q`: the query occurs in the check's name or in its
/// canonical identifier (plain case-sensitive substring match).
pub open spec fn matches_query(c: Check, q: Option<Seq<char>>) -> bool {
    match q {
        None => true,
        Some(s) => contains_sub(c.name@, s) || contains_sub(spec_id(c), s),
    }
}

/// The checks of `cs` matching `q`, kept in service order.
pub open spec fn kept_checks(cs: Seq<Check>, q: Option<Seq<char>>) -> Seq<Check>
    decreases cs.len(),
{
    if cs.len() == 0 {
        cs
    } else {
        kept_checks(cs.drop_last(), q) + (if matches_query(cs.last(), q) {
            seq![cs.last()]
        } else {
            Seq::empty()
        })
    }
}

/// `out` is `src` with both derived identifiers stored in their fields.
pub open spec fn filled_from(out: Check, src: Check) -> bool {
    &&& same_core(out, src)
    &&& (out.id matches Some(s) && s@ == last_segment(src.ping_url@))
    &&& (out.short_id matches Some(s) && s@ == before_hyphen(last_segment(src.ping_url@)))
}

/// The sole boundary to the remote service: owns the credential and the
/// base URL every request is addressed under.
#[derive(Debug, Clone)]
pub struct ApiClient {
    pub api_key: String,
    pub base_url: String,
}

impl ApiClient {
    /// A client for the given credential; without an override the base
    /// URL is the service's fixed production endpoint.
    pub fn new(api_key: &str, base_url: Option<&str>) -> (c: ApiClient)
        ensures
            c.api_key@ == api_key@,
            c.base_url@ == (match base_url {
                Some(u) => u@,
                None => spec_default_base_url(),
            }),
    {
        let base = match base_url {
            Some(u) => u.to_owned(),
            None => default_base_url(),
        };
        ApiClient { api_key: api_key.to_owned(), base_url: base }
    }

    /// Validates the inputs of a creation and builds its request.  A
    /// blank name and a grace period outside 1..=8760 hours are refused
    /// locally: no request exists to send.  Otherwise the request posts
    /// the JSON creation payload (grace converted to seconds, tags
    /// defaulting to empty, timezone defaulting to UTC) to the base URL.
    pub fn add_request(
        &self,
        name: &str,
        schedule: &str,
        grace_hours: u32,
        tz: Option<&str>,
        tags: Option<&str>,
    ) -> (r: Result<ApiRequest, ApiError>)
        ensures
            is_blank(name@) ==> (r matches Err(e) && e matches ApiError::Validation { reason }
                && reason@ == "name cannot be empty"@),
            !is_blank(name@) && !(1 <= grace_hours <= 8760) ==> (r matches Err(e)
                && e matches ApiError::Validation { reason } && reason@
                == "Grace period must be between 1 and 8760 hours"@),
            !is_blank(name@) && 1 <= grace_hours <= 8760 ==> (r matches Ok(req) && {
                &&& req.method == Method::Post
                &&& req.url@ == self.base_url@
                &&& req.api_key@ == self.api_key@
                &&& (req.body matches Some(b) && b@ == add_payload(
                    name@,
                    schedule@,
                    (grace_hours * 3600) as u32,
                    (match tags {
                        Some(t) => t@,
                        None => ""@,
                    }),
                    (match tz {
                        Some(t) => t@,
                        None => "UTC"@,
                    }),
                ))
            }),
    {
        if is_blank_str(name) {
            return Err(ApiError::Validation { reason: "name cannot be empty".to_owned() });
        }
        if grace_hours < 1 || grace_hours > 8760 {
            return Err(
                ApiError::Validation {
                    reason: "Grace period must be between 1 and 8760 hours".to_owned(),
                },
            );
        }
        let tz_val = match tz {
            Some(t) => t,
            None => "UTC",
        };
        let tags_val = match tags {
            Some(t) => t,
            None => "",
        };
        let grace_secs: u32 = grace_hours * 3600;
        let body = build_add_payload(name, schedule, grace_secs, tags_val, tz_val);
        Ok(
            ApiRequest {
                method: Method::Post,
                url: self.base_url.clone(),
                api_key: self.api_key.clone(),
                body: Some(body),
            },
        )
    }

    /// The listing request: everything the service knows, unfiltered.
    pub fn list_request(&self) -> (r: ApiRequest)
        ensures
            r.method == Method::Get,
            r.url@ == self.base_url@,
            r.api_key@ == self.api_key@,
            r.body is None,
    {
        ApiRequest {
            method: Method::Get,
            url: self.base_url.clone(),
            api_key: self.api_key.clone(),
            body: None,
        }
    }

    /// The deletion request for `check`, addressed by its identifier.
    pub fn delete_request(&self, check: &Check) -> (r: ApiRequest)
        ensures
            r.method == Method::Delete,
            r.url@ == self.base_url@ + spec_id(*check),
            r.api_key@ == self.api_key@,
            r.body is None,
    {
        let id = check.id();
        let url = self.base_url.clone().concat(id.as_str());
        ApiRequest { method: Method::Delete, url, api_key: self.api_key.clone(), body: None }
    }

    /// The pause request for `check`, addressed by its identifier.
    pub fn pause_request(&self, check: &Check) -> (r: ApiRequest)
        ensures
            r.method == Method::Post,
            r.url@ == self.base_url@ + spec_id(*check) + "/pause"@,
            r.api_key@ == self.api_key@,
            r.body is None,
    {
        let id = check.id();
        let url = self.base_url.clone().concat(id.as_str()).concat("/pause");
        ApiRequest { method: Method::Post, url, api_key: self.api_key.clone(), body: None }
    }

    /// The heartbeat request: a plain GET of the check's own ping URL.
    pub fn ping_request(&self, check: &Check) -> (r: ApiRequest)
        ensures
            r.method == Method::Get,
            r.url@ == check.ping_url@,
            r.api_key@ == self.api_key@,
            r.body is None,
    {
        ApiRequest {
            method: Method::Get,
            url: check.ping_url.clone(),
            api_key: self.api_key.clone(),
            body: None,
        }
    }
}

/// The transport reached the service and it answered 2xx.
pub open spec fn outcome_ok(outcome: HttpOutcome) -> bool {
    outcome matches HttpOutcome::Response { status, .. } && 200 <= status < 300
}

/// The body of a 2xx answer.
pub open spec fn outcome_body(outcome: HttpOutcome) -> Seq<char> {
    match outcome {
        HttpOutcome::Response { body, .. } => body@,
        HttpOutcome::Failed { .. } => Seq::empty(),
    }
}

/// `e` is exactly the classified failure a non-2xx outcome demands: a
/// transport failure keeps its cause, a service answer keeps its status
/// and body.
pub open spec fn classified_err(outcome: HttpOutcome, e: ApiError) -> bool {
    match outcome {
        HttpOutcome::Failed { cause } => (e matches ApiError::Transport { cause: c2 } && c2
            == cause),
        HttpOutcome::Response { status, body } => (e matches ApiError::ApiStatus {
            status: s2,
            body: b2,
        } && s2 == status && b2 == body),
    }
}

/// Sorts a transport outcome: a missing response is a transport
/// failure, a status outside 2xx a service failure carrying status and
/// body, and a 2xx answer hands back the raw body for decoding.
pub fn classify_outcome(outcome: HttpOutcome) -> (r: Result<String, ApiError>)
    ensures
        outcome_ok(outcome) ==> (r matches Ok(b) && b@ == outcome_body(outcome)),
        !outcome_ok(outcome) ==> (r matches Err(e) && classified_err(outcome, e)),
{
    match outcome {
        HttpOutcome::Failed { cause } => Err(ApiError::Transport { cause }),
        HttpOutcome::Response { status, body } => {
            if 200 <= status && status < 300 {
                Ok(body)
            } else {
                Err(ApiError::ApiStatus { status, body })
            }
        },
    }
}

/// Concludes an operation whose 2xx body should decode to one check
/// (creation, pause, deletion): `decoded` is that decoding, `None` when
/// the body was not the expected shape.
pub fn single_check_result(outcome: HttpOutcome, decoded: Option<Check>) -> (r: Result<
    Check,
    ApiError,
>)
    ensures
        !outcome_ok(outcome) ==> (r matches Err(e) && classified_err(outcome, e)),
        outcome_ok(outcome) ==> (match decoded {
            Some(c) => (r matches Ok(c2) && c2 == c),
            None => (r matches Err(e) && e is Decode),
        }),
{
    match classify_outcome(outcome) {
        Err(e) => Err(e),
        Ok(_body) => match decoded {
            Some(c) => Ok(c),
            None => Err(ApiError::Decode { cause: "unexpected response body".to_owned() }),
        },
    }
}

fn clone_opt_string(o: &Option<String>) -> (r: Option<String>)
    ensures
        r == *o,
{
    match o {
        Some(s) => Some(s.clone()),
        None => None,
    }
}

fn clone_check(c: &Check) -> (r: Check)
    ensures
        r == *c,
{
    Check {
        id: clone_opt_string(&c.id),
        short_id: clone_opt_string(&c.short_id),
        name: c.name.clone(),
        ping_url: c.ping_url.clone(),
        pause_url: c.pause_url.clone(),
        last_ping: clone_opt_string(&c.last_ping),
        next_ping: clone_opt_string(&c.next_ping),
        grace: c.grace,
        n_pings: c.n_pings,
        tags: c.tags.clone(),
        timeout: c.timeout,
        tz: clone_opt_string(&c.tz),
        schedule: clone_opt_string(&c.schedule),
        status: c.status.clone(),
        update_url: c.update_url.clone(),
    }
}

/// Keeps the checks matching `query` (by name or identifier), in the
/// order the service returned them, each with its derived identifiers
/// resolved before it is handed back.
pub fn get_result(checks: &Vec<Check>, query: Option<&str>) -> (r: Vec<Check>)
    ensures
        r@.len() == kept_checks(checks@, spec_query(query)).len(),
        forall|i: int| 0 <= i < r@.len() ==> filled_from(
            r@[i],
            kept_checks(checks@, spec_query(query))[i],
        ),
{
    let ghost q = spec_query(query);
    let mut out: Vec<Check> = Vec::new();
    let mut i: usize = 0;
    let n = checks.len();
    while i < n
        invariant
            i <= n,
            n == checks@.len(),
            out@.len() == kept_checks(checks@.take(i as int), q).len(),
            q == spec_query(query),
            forall|j: int| 0 <= j < out@.len() ==> filled_from(
                out@[j],
                kept_checks(checks@.take(i as int), q)[j],
            ),
        decreases n - i,
    {
        let c = &checks[i];
        let keep = match query {
            Some(qs) => {
                if str_contains(c.name.as_str(), qs) {
                    true
                } else {
                    let id = c.id();
                    str_contains(id.as_str(), qs)
                }
            },
            None => true,
        };
        proof {
            assert(keep == matches_query(checks@[i as int], q));
            assert(checks@.take(i + 1).drop_last() =~= checks@.take(i as int));
            assert(checks@.take(i + 1).last() == checks@[i as int]);
        }
        if keep {
            let mut c2 = clone_check(c);
            c2.fill_ids();
            out.push(c2);
            proof {
                assert(kept_checks(checks@.take(i + 1), q) =~= kept_checks(
                    checks@.take(i as int),
                    q,
                ).push(checks@[i as int]));
            }
        } else {
            proof {
                assert(kept_checks(checks@.take(i + 1), q) =~= kept_checks(
                    checks@.take(i as int),
                    q,
                ));
            }
        }
        i = i + 1;
    }
    proof {
        assert(checks@.take(n as int) =~= checks@);
    }
    out
}

/// Concludes a listing: a classified failure stays a failure, and a 2xx
/// body that decoded to a list is filtered by `query` with every kept
/// check's identifiers resolved.
pub fn list_result(outcome: HttpOutcome, decoded: Option<Vec<Check>>, query: Option<&str>) -> (r:
    Result<Vec<Check>, ApiError>)
    ensures
        !outcome_ok(outcome) ==> (r matches Err(e) && classified_err(outcome, e)),
        outcome_ok(outcome) ==> (match decoded {
            Some(cs) => (r matches Ok(out) && out@.len() == kept_checks(
                cs@,
                spec_query(query),
            ).len() && (forall|i: int| 0 <= i < out@.len() ==> filled_from(
                out@[i],
                kept_checks(cs@, spec_query(query))[i],
            ))),
            None => (r matches Err(e) && e is Decode),
        }),
{
    match classify_outcome(outcome) {
        Err(e) => Err(e),
        Ok(_body) => match decoded {
            Some(cs) => Ok(get_result(&cs, query)),
            None => Err(ApiError::Decode { cause: "unexpected response body".to_owned() }),
        },
    }
}

/// Concludes a heartbeat: any 2xx answer is success and no body is
/// read; otherwise the classified failure.
pub fn ping_result(outcome: HttpOutcome) -> (r: Result<(), ApiError>)
    ensures
        outcome_ok(outcome) ==> r is Ok,
        !outcome_ok(outcome) ==> (r matches Err(e) && classified_err(outcome, e)),
{
    match classify_outcome(outcome) {
        Err(e) => Err(e),
        Ok(_body) => Ok(()),
    }
}

/// The find-then-act resolution: every classified failure and an empty
/// listing both come out as absent; otherwise the first match in
/// service order.
pub fn find_result(re: &Result<Vec<Check>, ApiError>) -> (r: Option<Check>)
    ensures
        re is Err ==> r is None,
        re matches Ok(cs) ==> (if cs@.len() == 0 {
            r is None
        } else {
            r matches Some(c) && c == cs@[0]
        }),
{
    match re {
        Err(_) => None,
        Ok(cs) => {
            if cs.len() == 0 {
                None
            } else {
                Some(clone_check(&cs[0]))
            }
        },
    }
}

} // verus!

