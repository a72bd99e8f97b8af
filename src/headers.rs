//! The session changes that a successful response's headers direct.
use vstd::prelude::*;
use vstd::string::StrSliceExecFns;
use crate::params::Parameters;
use crate::text::{
    ends_with, find_char, has_prefix, has_suffix, index_of, join, lemma_index_of_from_bounds, owned,
    starts_with, str_eq, trim, trim_spec,
};

verus! {

/// A response header as the transport handed it over: missing, readable text, or a value
/// that is not visible ASCII.
#[derive(Debug)]
pub enum HeaderField {
    Absent,
    Text(String),
    Unreadable,
}

/// The mathematical form of a `HeaderField`.
pub enum HeaderFieldView {
    Absent,
    Text(Seq<char>),
    Unreadable,
}

impl View for HeaderField {
    type V = HeaderFieldView;

    open spec fn view(&self) -> HeaderFieldView {
        match self {
            HeaderField::Absent => HeaderFieldView::Absent,
            HeaderField::Text(s) => HeaderFieldView::Text(s@),
            HeaderField::Unreadable => HeaderFieldView::Unreadable,
        }
    }
}

/// The headers of a response that change the session: `Firebolt-Update-Endpoint`,
/// `Firebolt-Update-Parameters`, `Firebolt-Reset-Session` (by its presence) and
/// `Firebolt-Remove-Parameters`.
#[derive(Debug)]
pub struct ResponseHeaders {
    pub update_endpoint: HeaderField,
    pub update_parameters: HeaderField,
    pub reset_session: bool,
    pub remove_parameters: HeaderField,
}

/// The mathematical form of `ResponseHeaders`.
pub struct ResponseHeadersView {
    pub update_endpoint: HeaderFieldView,
    pub update_parameters: HeaderFieldView,
    pub reset_session: bool,
    pub remove_parameters: HeaderFieldView,
}

impl View for ResponseHeaders {
    type V = ResponseHeadersView;

    open spec fn view(&self) -> ResponseHeadersView {
        ResponseHeadersView {
            update_endpoint: self.update_endpoint@,
            update_parameters: self.update_parameters@,
            reset_session: self.reset_session,
            remove_parameters: self.remove_parameters@,
        }
    }
}

impl ResponseHeaders {
    /// No session headers at all.
    pub fn none() -> (r: ResponseHeaders)
        ensures
            r@ == (ResponseHeadersView {
                update_endpoint: HeaderFieldView::Absent,
                update_parameters: HeaderFieldView::Absent,
                reset_session: false,
                remove_parameters: HeaderFieldView::Absent,
            }),
    {
        ResponseHeaders {
            update_endpoint: HeaderField::Absent,
            update_parameters: HeaderField::Absent,
            reset_session: false,
            remove_parameters: HeaderField::Absent,
        }
    }
}

/// The parts of a URL that an endpoint update reads.
#[derive(Debug)]
pub struct UrlParts {
    pub scheme: String,
    pub host: Option<String>,
    pub path: String,
    pub query: Vec<(String, String)>,
}

/// The mathematical form of `UrlParts`.
pub struct UrlPartsView {
    pub scheme: Seq<char>,
    pub host: Option<Seq<char>>,
    pub path: Seq<char>,
    pub query: Seq<(Seq<char>, Seq<char>)>,
}

impl View for UrlParts {
    type V = UrlPartsView;

    open spec fn view(&self) -> UrlPartsView {
        UrlPartsView {
            scheme: self.scheme@,
            host: match self.host {
                Some(h) => Some(h@),
                None => None,
            },
            path: self.path@,
            query: self.query@.map_values(|e: (String, String)| (e.0@, e.1@)),
        }
    }
}

/// The scheme, host, path and decoded query pairs of the URL that the url crate reads from
/// `s`, if it reads one.
pub uninterp spec fn url_parts(s: Seq<char>) -> Option<UrlPartsView>;

/// Relies on url::Url::parse, and on `scheme`, `host_str`, `path` and `query_pairs` of the
/// URL that it returns.
#[verifier::external_body]
fn parse_url(s: &str) -> (r: Option<UrlParts>)
    ensures
        match r {
            Some(p) => url_parts(s@) == Some(p@),
            None => url_parts(s@) is None,
        },
{
    url::Url::parse(s).ok().map(
        |u|
            UrlParts {
                scheme: u.scheme().to_string(),
                host: u.host_str().map(|h| h.to_string()),
                path: u.path().to_string(),
                query: u.query_pairs().map(|(k, v)| (k.into_owned(), v.into_owned())).collect(),
            },
    )
}

/// `url` with `https://` in front unless it names `http` or `https` already.
pub open spec fn with_scheme(url: Seq<char>) -> Seq<char> {
    if has_prefix(url, "https://"@) || has_prefix(url, "http://"@) {
        url
    } else {
        "https://"@ + url
    }
}

/// `url` ending in exactly one more `/` unless it ends in one already.
pub open spec fn with_trailing_slash(url: Seq<char>) -> Seq<char> {
    if has_suffix(url, "/"@) {
        url
    } else {
        url + "/"@
    }
}

/// Puts `https://` in front of `url` unless it names `http` or `https` already.
pub fn fix_schema(url: &str) -> (r: String)
    ensures
        r@ == with_scheme(url@),
{
    if starts_with(url, "https://") || starts_with(url, "http://") {
        owned(url)
    } else {
        join("https://", url)
    }
}

/// Appends `/` to `url` unless it ends in one.
pub fn ensure_trailing_slash(url: &str) -> (r: String)
    ensures
        r@ == with_trailing_slash(url@),
{
    if ends_with(url, "/") {
        owned(url)
    } else {
        join(url, "/")
    }
}

/// The engine URL of an endpoint: scheme and host, then the path unless it is the root.
pub open spec fn engine_url_of(p: UrlPartsView) -> Seq<char> {
    let host = match p.host {
        Some(h) => h,
        None => Seq::empty(),
    };
    let base = p.scheme + "://"@ + host;
    if p.path == "/"@ || p.path.len() == 0 {
        base
    } else {
        base + p.path
    }
}

/// `m` with each pair of `q` set in turn.
pub open spec fn upsert_all(
    m: Map<Seq<char>, Seq<char>>,
    q: Seq<(Seq<char>, Seq<char>)>,
) -> Map<Seq<char>, Seq<char>>
    decreases q.len(),
{
    if q.len() == 0 {
        m
    } else {
        upsert_all(m.insert(q[0].0, q[0].1), q.drop_first())
    }
}

/// One entry of a parameters update: nothing for a blank entry, `None` for one without `=`
/// or with an empty name, else the trimmed name set to the trimmed text after the first `=`.
pub open spec fn apply_entry(m: Map<Seq<char>, Seq<char>>, piece: Seq<char>) -> Option<
    Map<Seq<char>, Seq<char>>,
> {
    let p = trim_spec(piece);
    if p.len() == 0 {
        Some(m)
    } else {
        let j = index_of(p, '=');
        if j >= p.len() {
            None
        } else {
            let key = trim_spec(p.subrange(0, j));
            let value = trim_spec(p.subrange(j + 1, p.len() as int));
            if key.len() == 0 {
                None
            } else {
                Some(m.insert(key, value))
            }
        }
    }
}

/// A parameters update, entry by entry along the commas of `s`: the map reached and whether
/// every entry was well formed. A malformed entry stops the update where it stands.
pub open spec fn update_params(m: Map<Seq<char>, Seq<char>>, s: Seq<char>) -> (
    Map<Seq<char>, Seq<char>>,
    bool,
)
    decreases s.len(),
{
    let j = index_of(s, ',');
    if j < 0 || j > s.len() {
        (m, false)
    } else {
        match apply_entry(m, s.subrange(0, j)) {
            None => (m, false),
            Some(m1) => if j >= s.len() {
                (m1, true)
            } else {
                update_params(m1, s.subrange(j + 1, s.len() as int))
            },
        }
    }
}

/// A parameters update merges into the parameters there: it never drops one.
pub proof fn lemma_update_never_drops(m: Map<Seq<char>, Seq<char>>, s: Seq<char>)
    ensures
        forall|k: Seq<char>| m.contains_key(k) ==> #[trigger] update_params(m, s).0.contains_key(k),
    decreases s.len(),
{
    lemma_index_of_from_bounds(s, ',', 0);
    let j = index_of(s, ',');
    if let Some(m1) = apply_entry(m, s.subrange(0, j)) {
        assert forall|k: Seq<char>| m.contains_key(k) implies m1.contains_key(k) by {
            let p = trim_spec(s.subrange(0, j));
            if p.len() != 0 {
                let i = index_of(p, '=');
                let key = trim_spec(p.subrange(0, i));
                assert(m1 == m.insert(key, trim_spec(p.subrange(i + 1, p.len() as int))));
            }
        }
        if j < s.len() {
            let rest = s.subrange(j + 1, s.len() as int);
            lemma_update_never_drops(m1, rest);
            assert(update_params(m, s) == update_params(m1, rest));
        } else {
            assert(update_params(m, s) == (m1, true));
        }
    } else {
        assert(update_params(m, s) == (m, false));
    }
}

/// A removal list, name by name along the commas of `s`.
pub open spec fn remove_listed(m: Map<Seq<char>, Seq<char>>, s: Seq<char>) -> Map<
    Seq<char>,
    Seq<char>,
>
    decreases s.len(),
{
    let j = index_of(s, ',');
    if j < 0 || j > s.len() {
        m
    } else {
        let name = trim_spec(s.subrange(0, j));
        let m1 = if name.len() == 0 {
            m
        } else {
            m.remove(name)
        };
        if j >= s.len() {
            m1
        } else {
            remove_listed(m1, s.subrange(j + 1, s.len() as int))
        }
    }
}

/// What a session reset keeps: the `database` and `engine` entries, where they exist.
pub open spec fn reset_params(m: Map<Seq<char>, Seq<char>>) -> Map<Seq<char>, Seq<char>> {
    let kept = if m.contains_key("database"@) {
        Map::empty().insert("database"@, m["database"@])
    } else {
        Map::empty()
    };
    if m.contains_key("engine"@) {
        kept.insert("engine"@, m["engine"@])
    } else {
        kept
    }
}

/// A reset keeps exactly the `database` and `engine` entries that were there, with their
/// values, and drops every other.
pub proof fn lemma_reset_keeps_database_and_engine(m: Map<Seq<char>, Seq<char>>)
    ensures
        forall|k: Seq<char>|
            #[trigger] reset_params(m).contains_key(k) <==> ((k == "database"@ || k == "engine"@)
                && m.contains_key(k)),
        forall|k: Seq<char>|
            #[trigger] reset_params(m).contains_key(k) ==> reset_params(m)[k] == m[k],
{
    reveal_strlit("database");
    reveal_strlit("engine");
    assert("database"@.len() != "engine"@.len());
}

/// The engine URL and parameters after the headers `h`, applied in the fixed order: endpoint,
/// parameters update, reset, removal; and whether all of them were well formed. The changes
/// made before a malformed header stay.
pub open spec fn headers_outcome(
    url: Seq<char>,
    m: Map<Seq<char>, Seq<char>>,
    h: ResponseHeadersView,
) -> (Seq<char>, Map<Seq<char>, Seq<char>>, bool) {
    let (url1, m1, ok1) = match h.update_endpoint {
        HeaderFieldView::Absent => (url, m, true),
        HeaderFieldView::Unreadable => (url, m, false),
        HeaderFieldView::Text(s) => match url_parts(with_scheme(s)) {
            Some(p) => (engine_url_of(p), upsert_all(m, p.query), true),
            None => (url, m, false),
        },
    };
    if !ok1 {
        (url1, m1, false)
    } else {
        let (m2, ok2) = match h.update_parameters {
            HeaderFieldView::Absent => (m1, true),
            HeaderFieldView::Unreadable => (m1, false),
            HeaderFieldView::Text(s) => update_params(m1, s),
        };
        if !ok2 {
            (url1, m2, false)
        } else {
            let m3 = if h.reset_session {
                reset_params(m2)
            } else {
                m2
            };
            match h.remove_parameters {
                HeaderFieldView::Absent => (url1, m3, true),
                HeaderFieldView::Unreadable => (url1, m3, false),
                HeaderFieldView::Text(s) => (url1, remove_listed(m3, s), true),
            }
        }
    }
}

/// Applies one entry of a parameters update; `false` where it is malformed.
fn apply_entry_exec(params: &mut Parameters, piece: &str) -> (r: bool)
    requires
        old(params).wf(),
    ensures
        final(params).wf(),
        match apply_entry(old(params)@, piece@) {
            Some(m) => r && final(params)@ == m,
            None => !r && final(params)@ == old(params)@,
        },
{
    let p = trim(piece);
    let n = p.unicode_len();
    if n == 0 {
        return true;
    }
    let j = find_char(p, '=');
    if j >= n {
        return false;
    }
    let key = trim(p.substring_char(0, j));
    let value = trim(p.substring_char(j + 1, n));
    if key.unicode_len() == 0 {
        return false;
    }
    params.insert(owned(key), owned(value));
    true
}

/// Applies a parameters update, entry by entry; `false` at the first malformed entry, with the
/// entries before it applied.
fn apply_update_parameters(params: &mut Parameters, s: &str) -> (r: bool)
    requires
        old(params).wf(),
    ensures
        final(params).wf(),
        (final(params)@, r) == update_params(old(params)@, s@),
{
    let mut rest: &str = s;
    loop
        invariant
            params.wf(),
            update_params(params@, rest@) == update_params(old(params)@, s@),
        decreases rest@.len(),
    {
        let n = rest.unicode_len();
        let j = find_char(rest, ',');
        proof {
            lemma_index_of_from_bounds(rest@, ',', 0);
        }
        let piece = rest.substring_char(0, j);
        if !apply_entry_exec(params, piece) {
            return false;
        }
        if j >= n {
            return true;
        }
        rest = rest.substring_char(j + 1, n);
    }
}

/// Removes each name of a comma-separated list.
fn apply_remove_parameters(params: &mut Parameters, s: &str)
    requires
        old(params).wf(),
    ensures
        final(params).wf(),
        final(params)@ == remove_listed(old(params)@, s@),
{
    let mut rest: &str = s;
    loop
        invariant
            params.wf(),
            remove_listed(params@, rest@) == remove_listed(old(params)@, s@),
        decreases rest@.len(),
    {
        let n = rest.unicode_len();
        let j = find_char(rest, ',');
        proof {
            lemma_index_of_from_bounds(rest@, ',', 0);
        }
        let name = trim(rest.substring_char(0, j));
        if name.unicode_len() != 0 {
            params.remove(name);
        }
        if j >= n {
            return;
        }
        rest = rest.substring_char(j + 1, n);
    }
}

/// Keeps only the `database` and `engine` parameters.
fn apply_reset(params: &mut Parameters)
    requires
        old(params).wf(),
    ensures
        final(params).wf(),
        final(params)@ == reset_params(old(params)@),
{
    let database = match params.get("database") {
        Some(v) => Some(v.clone()),
        None => None,
    };
    let engine = match params.get("engine") {
        Some(v) => Some(v.clone()),
        None => None,
    };
    params.clear();
    if let Some(db) = database {
        params.insert(owned("database"), db);
    }
    if let Some(eng) = engine {
        params.insert(owned("engine"), eng);
    }
    proof {
        let m = reset_params(old(params)@);
        assert(params@ =~= m);
    }
}

/// Applies an endpoint update: the engine URL becomes the new endpoint's scheme, host and
/// path, and its query pairs are set as parameters. `None` where the URL does not parse.
fn apply_update_endpoint(params: &mut Parameters, value: &str) -> (r: Option<String>)
    requires
        old(params).wf(),
    ensures
        final(params).wf(),
        match url_parts(with_scheme(value@)) {
            Some(p) => r matches Some(u) && u@ == engine_url_of(p) && final(params)@ == upsert_all(
                old(params)@,
                p.query,
            ),
            None => r is None && final(params)@ == old(params)@,
        },
{
    let fixed = fix_schema(value);
    let parts = match parse_url(fixed.as_str()) {
        Some(p) => p,
        None => {
            return None;
        },
    };
    let with_sep = join(parts.scheme.as_str(), "://");
    let base = match &parts.host {
        Some(h) => join(with_sep.as_str(), h.as_str()),
        None => with_sep,
    };
    let url = if str_eq(parts.path.as_str(), "/") || parts.path.as_str().unicode_len() == 0 {
        base
    } else {
        join(base.as_str(), parts.path.as_str())
    };
    let ghost q = parts@.query;
    let mut i: usize = 0;
    assert(q.subrange(0, q.len() as int) =~= q);
    while i < parts.query.len()
        invariant
            params.wf(),
            q == parts@.query,
            i <= parts.query.len(),
            upsert_all(params@, q.subrange(i as int, q.len() as int)) == upsert_all(
                old(params)@,
                q,
            ),
        decreases parts.query.len() - i,
    {
        assert(q.subrange(i as int, q.len() as int).drop_first() =~= q.subrange(i + 1, q.len() as int));
        params.insert(parts.query[i].0.clone(), parts.query[i].1.clone());
        i = i + 1;
    }
    proof {
        assert(q.subrange(i as int, q.len() as int) =~= Seq::<(Seq<char>, Seq<char>)>::empty());
    }
    Some(url)
}

/// Applies the headers `h` to the engine URL and parameters of a session, in the fixed
/// order; `false` at the first malformed header, with the changes before it kept.
pub fn apply_headers(engine_url: &mut String, params: &mut Parameters, h: &ResponseHeaders) -> (r: bool)
    requires
        old(params).wf(),
    ensures
        final(params).wf(),
        (final(engine_url)@, final(params)@, r) == headers_outcome(old(engine_url)@, old(params)@, h@),
{
    match &h.update_endpoint {
        HeaderField::Absent => {},
        HeaderField::Unreadable => {
            return false;
        },
        HeaderField::Text(s) => {
            match apply_update_endpoint(params, s.as_str()) {
                Some(u) => {
                    *engine_url = u;
                },
                None => {
                    return false;
                },
            }
        },
    }
    match &h.update_parameters {
        HeaderField::Absent => {},
        HeaderField::Unreadable => {
            return false;
        },
        HeaderField::Text(s) => {
            if !apply_update_parameters(params, s.as_str()) {
                return false;
            }
        },
    }
    if h.reset_session {
        apply_reset(params);
    }
    match &h.remove_parameters {
        HeaderField::Absent => {},
        HeaderField::Unreadable => {
            return false;
        },
        HeaderField::Text(s) => {
            apply_remove_parameters(params, s.as_str());
        },
    }
    true
}

} // verus!
