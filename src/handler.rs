//! The per-request redirect decision: request metadata, the reply owed to
//! the client, and the analytics event handed to the background publish.

use vstd::prelude::*;
use crate::models::AnalyticsEvent;
use crate::resolver::StoreError;

verus! {

/// Index of the first `,` or `:` in `s`, or -1 when `s` holds neither.
pub open spec fn first_separator(s: Seq<char>) -> int
    decreases s.len(),
{
    if s.len() == 0 {
        -1
    } else if first_separator(s.drop_last()) >= 0 {
        first_separator(s.drop_last())
    } else if s.last() == ',' || s.last() == ':' {
        s.len() - 1
    } else {
        -1
    }
}

/// The leading token of a forwarding header: the text before its first `,` or `:`.
pub open spec fn leading_token(s: Seq<char>) -> Seq<char> {
    if first_separator(s) >= 0 {
        s.take(first_separator(s))
    } else {
        s
    }
}

/// The client address recorded for a forwarding header; `0.0.0.0` when the
/// header is absent or its leading token is empty.
pub open spec fn client_ip_of(header: Option<Seq<char>>) -> Seq<char> {
    match header {
        Some(h) => if leading_token(h).len() > 0 { leading_token(h) } else { "0.0.0.0"@ },
        None => "0.0.0.0"@,
    }
}

/// The user agent recorded for a `User-Agent` header; `unknown` when absent.
pub open spec fn user_agent_of(header: Option<Seq<char>>) -> Seq<char> {
    match header {
        Some(h) => h,
        None => "unknown"@,
    }
}

pub open spec fn opt_str_view(v: Option<&str>) -> Option<Seq<char>> {
    match v {
        Some(x) => Some(x@),
        None => None,
    }
}

proof fn lemma_first_separator_prefix(s: Seq<char>, m: int)
    requires
        0 <= m <= s.len(),
        first_separator(s.take(m)) >= 0,
    ensures
        first_separator(s) == first_separator(s.take(m)),
    decreases s.len(),
{
    if m == s.len() {
        assert(s.take(m) =~= s);
    } else {
        assert(s.drop_last().take(m) =~= s.take(m));
        lemma_first_separator_prefix(s.drop_last(), m);
    }
}

/// The client address to record, from the `X-Forwarded-For` header if any.
pub fn client_ip(forwarded_for: Option<&str>) -> (r: String)
    ensures
        r@ == client_ip_of(opt_str_view(forwarded_for)),
{
    match forwarded_for {
        None => String::from_str("0.0.0.0"),
        Some(h) => {
            let n = h.unicode_len();
            let mut j: usize = 0;
            while j < n && h.get_char(j) != ',' && h.get_char(j) != ':'
                invariant
                    n == h@.len(),
                    j <= n,
                    first_separator(h@.take(j as int)) == -1,
                decreases n - j,
            {
                assert(h@.take(j + 1).drop_last() =~= h@.take(j as int));
                j = j + 1;
            }
            proof {
                if j < n {
                    assert(h@.take(j + 1).drop_last() =~= h@.take(j as int));
                    lemma_first_separator_prefix(h@, j + 1);
                } else {
                    assert(h@.take(n as int) =~= h@);
                }
            }
            let token = h.substring_char(0, j);
            assert(token@ =~= leading_token(h@));
            if j == 0 {
                String::from_str("0.0.0.0")
            } else {
                String::from_str(token)
            }
        }
    }
}

/// The user agent to record, from the `User-Agent` header if any.
pub fn user_agent(header: Option<&str>) -> (r: String)
    ensures
        r@ == user_agent_of(opt_str_view(header)),
{
    match header {
        Some(h) => String::from_str(h),
        None => String::from_str("unknown"),
    }
}

/// What the client is told.
#[derive(Clone, Debug, PartialEq, Eq)]
pub enum Reply {
    /// `302 Found` to the destination.
    Redirect(String),
    /// `404`: the code is absent or inactive.
    NotFound,
    /// `500`: the store failed.
    DatabaseError,
}

impl Reply {
    /// The HTTP status of the reply.
    pub fn status(&self) -> (r: u16)
        ensures
            r == match self {
                Reply::Redirect(_) => 302u16,
                Reply::NotFound => 404u16,
                Reply::DatabaseError => 500u16,
            },
    {
        match self {
            Reply::Redirect(_) => 302,
            Reply::NotFound => 404,
            Reply::DatabaseError => 500,
        }
    }

    /// The plain-text body of the reply; empty for a redirect.
    pub fn body(&self) -> (r: &'static str)
        ensures
            r@ == match self {
                Reply::Redirect(_) => ""@,
                Reply::NotFound => "Link not found"@,
                Reply::DatabaseError => "Database Error"@,
            },
    {
        match self {
            Reply::Redirect(_) => "",
            Reply::NotFound => "Link not found",
            Reply::DatabaseError => "Database Error",
        }
    }
}

/// The reply owed for the resolver's answer; nothing else bears on it.
pub open spec fn reply_for(lookup: Result<Option<String>, StoreError>) -> Reply {
    match lookup {
        Ok(Some(url)) => Reply::Redirect(url),
        Ok(None) => Reply::NotFound,
        Err(_) => Reply::DatabaseError,
    }
}

/// The outcome of one request: the reply, sent at once, and the event that
/// a detached task publishes afterwards, if the link resolved.
#[derive(Clone, Debug, PartialEq, Eq)]
pub struct RedirectPlan {
    pub reply: Reply,
    pub analytics: Option<AnalyticsEvent>,
}

/// `r` is the plan for a request for `short_code` with the given resolver
/// answer, header values and timestamp.
pub open spec fn planned_for(
    r: RedirectPlan,
    short_code: Seq<char>,
    lookup: Result<Option<String>, StoreError>,
    user_agent_header: Option<Seq<char>>,
    forwarded_for: Option<Seq<char>>,
    timestamp: Seq<char>,
) -> bool {
    &&& r.reply == reply_for(lookup)
    &&& lookup matches Ok(Some(url)) ==> (r.analytics matches Some(ev) && {
        &&& ev.short_code@ == short_code
        &&& ev.original_url@ == url@
        &&& ev.timestamp@ == timestamp
        &&& ev.user_agent@ == user_agent_of(user_agent_header)
        &&& ev.ip_address@ == client_ip_of(forwarded_for)
    })
    &&& !(lookup matches Ok(Some(_))) ==> r.analytics is None
}

/// Decides the reply to a request for `short_code` from the resolver's answer,
/// and builds the analytics event for a followed link.
pub fn plan_redirect(
    short_code: &str,
    lookup: Result<Option<String>, StoreError>,
    user_agent_header: Option<&str>,
    forwarded_for: Option<&str>,
    timestamp: &str,
) -> (r: RedirectPlan)
    ensures
        planned_for(
            r,
            short_code@,
            lookup,
            opt_str_view(user_agent_header),
            opt_str_view(forwarded_for),
            timestamp@,
        ),
{
    match lookup {
        Ok(Some(url)) => {
            let event = AnalyticsEvent {
                short_code: String::from_str(short_code),
                original_url: url.clone(),
                timestamp: String::from_str(timestamp),
                user_agent: user_agent(user_agent_header),
                ip_address: client_ip(forwarded_for),
            };
            RedirectPlan { reply: Reply::Redirect(url), analytics: Some(event) }
        },
        Ok(None) => RedirectPlan { reply: Reply::NotFound, analytics: None },
        Err(_) => RedirectPlan { reply: Reply::DatabaseError, analytics: None },
    }
}

/// The reply is fixed by the resolver's answer alone: the header values, the
/// timestamp and the analytics event built beside it play no part in it.
pub proof fn lemma_reply_depends_on_lookup_only(
    r1: RedirectPlan,
    r2: RedirectPlan,
    lookup: Result<Option<String>, StoreError>,
    short_code: Seq<char>,
    ua1: Option<Seq<char>>,
    ua2: Option<Seq<char>>,
    fwd1: Option<Seq<char>>,
    fwd2: Option<Seq<char>>,
    ts1: Seq<char>,
    ts2: Seq<char>,
)
    requires
        planned_for(r1, short_code, lookup, ua1, fwd1, ts1),
        planned_for(r2, short_code, lookup, ua2, fwd2, ts2),
    ensures
        r1.reply == r2.reply,
{
}

} // verus!
