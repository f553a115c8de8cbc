//! The queue namespace connection string: `;`-separated `key=value` entries.

use vstd::prelude::*;

verus! {

/// Index of the first `c` in `s`, or -1 when `s` holds none.
pub open spec fn first_index(s: Seq<char>, c: char) -> int
    decreases s.len(),
{
    if s.len() == 0 {
        -1
    } else if first_index(s.drop_last(), c) >= 0 {
        first_index(s.drop_last(), c)
    } else if s.last() == c {
        s.len() - 1
    } else {
        -1
    }
}

/// The pieces of `s` between `;` separators, empty pieces included
/// (an empty string is one empty piece).
pub open spec fn segments(s: Seq<char>) -> Seq<Seq<char>>
    decreases s.len(),
{
    if s.len() == 0 {
        seq![Seq::<char>::empty()]
    } else if s.last() == ';' {
        segments(s.drop_last()).push(Seq::<char>::empty())
    } else {
        let p = segments(s.drop_last());
        p.update(p.len() - 1, p.last().push(s.last()))
    }
}

/// The value of entry `seg` when its key (the text before its first `=`) is `key`.
pub open spec fn entry_value(seg: Seq<char>, key: Seq<char>) -> Option<Seq<char>> {
    let e = first_index(seg, '=');
    if e >= 0 && seg.take(e) == key {
        Some(seg.skip(e + 1))
    } else {
        None
    }
}

/// The value of the last entry of `segs` whose key is `key`.
pub open spec fn lookup(segs: Seq<Seq<char>>, key: Seq<char>) -> Option<Seq<char>>
    decreases segs.len(),
{
    if segs.len() == 0 {
        None
    } else if entry_value(segs.last(), key) is Some {
        entry_value(segs.last(), key)
    } else {
        lookup(segs.drop_last(), key)
    }
}

/// The value that the connection string `s` gives to `key`; a later entry
/// overrides an earlier one, and a piece without `=` is no entry.
pub open spec fn conn_value(s: Seq<char>, key: Seq<char>) -> Option<Seq<char>> {
    lookup(segments(s), key)
}

pub open spec fn scheme_prefix() -> Seq<char> {
    seq!['s', 'b', ':', '/', '/']
}

/// `s` with every occurrence of `sb://` removed, scanning left to right.
pub open spec fn without_scheme(s: Seq<char>) -> Seq<char>
    decreases s.len(),
{
    if s.len() >= 5 && s.take(5) == scheme_prefix() {
        without_scheme(s.skip(5))
    } else if s.len() == 0 {
        s
    } else {
        seq![s[0]] + without_scheme(s.skip(1))
    }
}

/// `s` without its trailing `/` characters.
pub open spec fn trim_slashes(s: Seq<char>) -> Seq<char>
    decreases s.len(),
{
    if s.len() > 0 && s.last() == '/' {
        trim_slashes(s.drop_last())
    } else {
        s
    }
}

/// The namespace host named by an `Endpoint` value.
pub open spec fn endpoint_host(v: Seq<char>) -> Seq<char> {
    trim_slashes(without_scheme(v))
}

pub open spec fn value_or_empty(v: Option<Seq<char>>) -> Seq<char> {
    match v {
        Some(x) => x,
        None => Seq::<char>::empty(),
    }
}

pub open spec fn opt_view(v: Option<String>) -> Option<Seq<char>> {
    match v {
        Some(x) => Some(x@),
        None => None,
    }
}

/// A configuration the process must not run with.
#[derive(Clone, Copy, Debug, PartialEq, Eq)]
pub enum ConfigError {
    /// The connection string has no `Endpoint` entry.
    MissingEndpoint,
}

/// Where and with which key analytics events are published.
#[derive(Clone, Debug, PartialEq, Eq)]
pub struct QueueConfig {
    /// Namespace host, without scheme and trailing `/`.
    pub endpoint: String,
    /// `SharedAccessKeyName`, empty when absent.
    pub key_name: String,
    /// `SharedAccessKey`, empty when absent.
    pub key: String,
}

proof fn lemma_first_index_prefix(s: Seq<char>, c: char, m: int)
    requires
        0 <= m <= s.len(),
        first_index(s.take(m), c) >= 0,
    ensures
        first_index(s, c) == first_index(s.take(m), c),
    decreases s.len(),
{
    if m == s.len() {
        assert(s.take(m) =~= s);
    } else {
        assert(s.drop_last().take(m) =~= s.take(m));
        lemma_first_index_prefix(s.drop_last(), c, m);
    }
}

/// The value of entry `s[start..end]` when its key is `key`.
fn entry_in(s: &str, start: usize, end: usize, key: &str) -> (r: Option<String>)
    requires
        start <= end <= s@.len(),
    ensures
        opt_view(r) == entry_value(s@.subrange(start as int, end as int), key@),
{
    let ghost seg = s@.subrange(start as int, end as int);
    let mut j: usize = start;
    while j < end
        invariant
            start <= j <= end <= s@.len(),
            seg == s@.subrange(start as int, end as int),
            first_index(seg.take(j - start), '=') == -1,
        decreases end - j,
    {
        let ch = s.get_char(j);
        let ghost k = j - start;
        assert(seg.take(k + 1).drop_last() =~= seg.take(k));
        if ch == '=' {
            proof {
                assert(seg.take(k + 1).last() == '=');
                lemma_first_index_prefix(seg, '=', k + 1);
            }
            let name = String::from_str(s.substring_char(start, j));
            let wanted = String::from_str(key);
            assert(name@ =~= seg.take(k));
            if name == wanted {
                let v = String::from_str(s.substring_char(j + 1, end));
                assert(v@ =~= seg.skip(k + 1));
                return Some(v);
            } else {
                return None;
            }
        }
        j = j + 1;
    }
    assert(seg.take(end - start) =~= seg);
    None
}

/// The value that connection string `s` gives to `key`, if any.
pub fn find_value(s: &str, key: &str) -> (r: Option<String>)
    ensures
        opt_view(r) == conn_value(s@, key@),
{
    let n = s.unicode_len();
    let mut start: usize = 0;
    let mut i: usize = 0;
    let mut found: Option<String> = None;
    let ghost mut done: Seq<Seq<char>> = Seq::empty();
    assert(s@.take(0) =~= Seq::<char>::empty());
    assert(segments(s@.take(0)) =~= done.push(s@.subrange(0, 0)));
    while i < n
        invariant
            n == s@.len(),
            start <= i <= n,
            segments(s@.take(i as int)) == done.push(s@.subrange(start as int, i as int)),
            opt_view(found) == lookup(done, key@),
        decreases n - i,
    {
        let ch = s.get_char(i);
        assert(s@.take(i + 1).drop_last() =~= s@.take(i as int));
        assert(s@.take(i + 1).last() == ch);
        if ch == ';' {
            let e = entry_in(s, start, i, key);
            proof {
                let seg = s@.subrange(start as int, i as int);
                assert(done.push(seg).drop_last() =~= done);
                assert(done.push(seg).last() == seg);
                assert(s@.subrange(i + 1, i + 1) =~= Seq::<char>::empty());
                assert(segments(s@.take(i + 1)) =~= done.push(seg).push(
                    s@.subrange(i + 1, i + 1),
                ));
                done = done.push(seg);
            }
            if e.is_some() {
                found = e;
            }
            start = i + 1;
        } else {
            proof {
                let seg = s@.subrange(start as int, i as int);
                assert(seg.push(ch) =~= s@.subrange(start as int, i + 1));
                assert(segments(s@.take(i + 1)) =~= done.push(s@.subrange(start as int, i + 1)));
            }
        }
        i = i + 1;
    }
    let e = entry_in(s, start, n, key);
    proof {
        let seg = s@.subrange(start as int, n as int);
        assert(s@.take(n as int) =~= s@);
        assert(done.push(seg).drop_last() =~= done);
        assert(done.push(seg).last() == seg);
    }
    if e.is_some() {
        e
    } else {
        found
    }
}

/// `s` with every `sb://` removed.
fn strip_scheme(s: &str) -> (r: String)
    ensures
        r@ == without_scheme(s@),
{
    let n = s.unicode_len();
    let mut r = String::new();
    let mut i: usize = 0;
    assert(s@.subrange(0, n as int) =~= s@);
    assert(r@ + without_scheme(s@) =~= without_scheme(s@));
    while i < n
        invariant
            n == s@.len(),
            i <= n,
            r@ + without_scheme(s@.subrange(i as int, n as int)) == without_scheme(s@),
        decreases n - i,
    {
        let ghost t = s@.subrange(i as int, n as int);
        if n - i >= 5 && s.get_char(i) == 's' && s.get_char(i + 1) == 'b' && s.get_char(i + 2)
            == ':' && s.get_char(i + 3) == '/' && s.get_char(i + 4) == '/' {
            assert(t.take(5) =~= scheme_prefix());
            assert(t.skip(5) =~= s@.subrange(i + 5, n as int));
            i = i + 5;
        } else {
            let one = s.substring_char(i, i + 1);
            assert(!(t.len() >= 5 && t.take(5) == scheme_prefix())) by {
                if t.len() >= 5 && t.take(5) == scheme_prefix() {
                    assert(t.take(5)[0] == 's');
                    assert(t.take(5)[1] == 'b');
                    assert(t.take(5)[2] == ':');
                    assert(t.take(5)[3] == '/');
                    assert(t.take(5)[4] == '/');
                }
            }
            assert(t.skip(1) =~= s@.subrange(i + 1, n as int));
            assert(one@ =~= seq![t[0]]);
            assert(r@ + one@ + without_scheme(t.skip(1)) =~= r@ + without_scheme(t));
            r.append(one);
            i = i + 1;
        }
    }
    assert(s@.subrange(n as int, n as int) =~= Seq::<char>::empty());
    assert(r@ + Seq::<char>::empty() =~= r@);
    r
}

/// `s` without its trailing `/` characters.
fn trim_trailing_slashes(s: &str) -> (r: String)
    ensures
        r@ == trim_slashes(s@),
{
    let mut j = s.unicode_len();
    assert(s@.take(j as int) =~= s@);
    while j > 0 && s.get_char(j - 1) == '/'
        invariant
            j <= s@.len(),
            trim_slashes(s@.take(j as int)) == trim_slashes(s@),
        decreases j,
    {
        assert(s@.take(j as int).drop_last() =~= s@.take(j - 1));
        j = j - 1;
    }
    let r = String::from_str(s.substring_char(0, j));
    assert(r@ =~= s@.take(j as int));
    r
}

/// Reads the endpoint host, key name and key out of a connection string of
/// the form `Endpoint=sb://host/;SharedAccessKeyName=name;SharedAccessKey=key`.
/// A missing key name or key reads as empty; a missing endpoint is an error.
pub fn parse_conn_str(conn_str: &str) -> (r: Result<QueueConfig, ConfigError>)
    ensures
        conn_value(conn_str@, "Endpoint"@) is None <==> r is Err,
        r matches Err(e) ==> e == ConfigError::MissingEndpoint,
        r matches Ok(cfg) ==> {
            &&& conn_value(conn_str@, "Endpoint"@) matches Some(v)
            &&& cfg.endpoint@ == endpoint_host(v)
            &&& cfg.key_name@ == value_or_empty(conn_value(conn_str@, "SharedAccessKeyName"@))
            &&& cfg.key@ == value_or_empty(conn_value(conn_str@, "SharedAccessKey"@))
        },
{
    let endpoint = match find_value(conn_str, "Endpoint") {
        Some(v) => v,
        None => return Err(ConfigError::MissingEndpoint),
    };
    let stripped = strip_scheme(endpoint.as_str());
    let host = trim_trailing_slashes(stripped.as_str());
    let key_name = match find_value(conn_str, "SharedAccessKeyName") {
        Some(v) => v,
        None => String::new(),
    };
    let key = match find_value(conn_str, "SharedAccessKey") {
        Some(v) => v,
        None => String::new(),
    };
    Ok(QueueConfig { endpoint: host, key_name, key })
}

} // verus!
