//! The `Check` entity: one heartbeat monitor as the remote service
//! reports it, with its derived identifiers and display-ready
//! last-heartbeat views.

use crate::text::{
    before_hyphen, head_before_hyphen, last_segment, lemma_before_hyphen_whole,
    lemma_last_segment_after_slash, tail_after_slash,
};
use crate::timestamp::{humanize_to_phrase, parse_to_local, stamp_or_sentinel, Timestamp};
use vstd::prelude::*;
use vstd::string::*;

verus! {

/// One heartbeat monitor.  All fields come from a decoded service
/// payload, except `id` and `short_id`, which the service may omit and
/// which are then derived from `ping_url`.
#[derive(Debug, Clone)]
pub struct Check {
    pub id: Option<String>,
    pub short_id: Option<String>,
    pub name: String,
    pub ping_url: String,
    pub pause_url: String,
    pub last_ping: Option<String>,
    pub next_ping: Option<String>,
    pub grace: u32,
    pub n_pings: u32,
    pub tags: String,
    pub timeout: Option<u32>,
    pub tz: Option<String>,
    pub schedule: Option<String>,
    pub status: String,
    pub update_url: String,
}

/// The canonical identifier of `c`: the explicit `id` field when the
/// payload carried one, else the last `/`-delimited segment of
/// `ping_url` (empty when `ping_url` is empty or ends in `/`).
pub open spec fn spec_id(c: Check) -> Seq<char> {
    match c.id {
        Some(s) => s@,
        None => last_segment(c.ping_url@),
    }
}

/// The shortened display identifier: the explicit `short_id` field when
/// present, else the prefix of the canonical identifier up to (not
/// including) its first `-`; an identifier without a hyphen is kept
/// whole.
pub open spec fn spec_short_id(c: Check) -> Seq<char> {
    match c.short_id {
        Some(s) => s@,
        None => before_hyphen(spec_id(c)),
    }
}

/// The non-derived fields of `a` and `b` agree.
pub open spec fn same_core(a: Check, b: Check) -> bool {
    &&& a.name == b.name
    &&& a.ping_url == b.ping_url
    &&& a.pause_url == b.pause_url
    &&& a.last_ping == b.last_ping
    &&& a.next_ping == b.next_ping
    &&& a.grace == b.grace
    &&& a.n_pings == b.n_pings
    &&& a.tags == b.tags
    &&& a.timeout == b.timeout
    &&& a.tz == b.tz
    &&& a.schedule == b.schedule
    &&& a.status == b.status
    &&& a.update_url == b.update_url
}

impl Check {
    /// The canonical identifier, derived from `ping_url` when the
    /// payload omitted it.  Empty only when `ping_url` gives nothing to
    /// derive from (no panic).
    pub fn id(&self) -> (r: String)
        ensures
            r@ == spec_id(*self),
    {
        match &self.id {
            Some(s) => s.clone(),
            None => tail_after_slash(self.ping_url.as_str()),
        }
    }

    /// The shortened display identifier: the prefix of `id()` before its
    /// first hyphen, or all of `id()` when it has none.
    pub fn short_id(&self) -> (r: String)
        ensures
            r@ == spec_short_id(*self),
    {
        match &self.short_id {
            Some(s) => s.clone(),
            None => {
                let id = self.id();
                head_before_hyphen(id.as_str())
            },
        }
    }

    /// Stores both derived identifiers in their fields, leaving every
    /// other field as it was.
    pub fn fill_ids(&mut self)
        ensures
            same_core(*final(self), *old(self)),
            final(self).id matches Some(s) && s@ == last_segment(old(self).ping_url@),
            final(self).short_id matches Some(s) && s@ == before_hyphen(
                last_segment(old(self).ping_url@),
            ),
    {
        let id = tail_after_slash(self.ping_url.as_str());
        let short = head_before_hyphen(id.as_str());
        self.id = Some(id);
        self.short_id = Some(short);
    }

    /// The last-heartbeat instant in local time; the sentinel
    /// (1901-01-01 00:00:00) when the service recorded none or the
    /// timestamp cannot be read.
    pub fn last_ping_at(&self) -> (t: Timestamp)
        ensures
            t.wf(),
            self.last_ping is None ==> t == Timestamp::spec_sentinel(),
    {
        match &self.last_ping {
            Some(s) => stamp_or_sentinel(parse_to_local(s.as_str())),
            None => Timestamp::sentinel(),
        }
    }

    /// The last heartbeat as a relative-time phrase ("3 minutes ago");
    /// the literal `"never"` when the resolved instant's year falls
    /// before 1950, which covers the sentinel and any implausible epoch.
    pub fn humanized_last_ping_at(&self) -> (r: String)
        ensures
            r@.len() > 0,
            self.last_ping is None ==> r@ == "never"@,
    {
        let t = self.last_ping_at();
        let phrase = if t.year >= 1950 {
            match &self.last_ping {
                Some(s) => humanize_to_phrase(s.as_str()),
                None => None,
            }
        } else {
            None
        };
        proof {
            reveal_strlit("never");
        }
        phrase_or_never(&t, phrase)
    }
}

/// The display rule for a heartbeat instant: anything before 1950 (the
/// sentinel and any implausible epoch) renders as the literal
/// `"never"`; a later instant shows its rendered phrase, falling back
/// to `"never"` when there is none to show.
pub fn phrase_or_never(t: &Timestamp, phrase: Option<String>) -> (r: String)
    ensures
        t.year < 1950 || phrase is None ==> r@ == "never"@,
        phrase matches Some(p) ==> (t.year >= 1950 ==> r@ == p@),
{
    if t.year < 1950 {
        return never_phrase();
    }
    match phrase {
        Some(p) => p,
        None => never_phrase(),
    }
}

fn never_phrase() -> (r: String)
    ensures
        r@ == "never"@,
        r@.len() > 0,
{
    proof {
        reveal_strlit("never");
    }
    "never".to_owned()
}

/// For a ping URL of the form `<prefix>/<token>` with a slash-free
/// token, a check without an explicit identifier derives exactly
/// `<token>`.
pub proof fn lemma_id_from_ping_url(c: Check, prefix: Seq<char>, token: Seq<char>)
    requires
        c.id is None,
        c.ping_url@ == prefix.push('/') + token,
        forall|k: int| 0 <= k < token.len() ==> token[k] != '/',
    ensures
        spec_id(c) == token,
{
    lemma_last_segment_after_slash(prefix, token);
}

/// A check whose derived identifier holds no hyphen shortens to the
/// full identifier unchanged.
pub proof fn lemma_short_id_without_hyphen(c: Check)
    requires
        c.short_id is None,
        forall|k: int| 0 <= k < spec_id(c).len() ==> spec_id(c)[k] != '-',
    ensures
        spec_short_id(c) == spec_id(c),
{
    lemma_before_hyphen_whole(spec_id(c));
}

} // verus!
