//! Request URLs against the fixed base address.
//!
//! A request URL starts from `https://api.currencyapi.com/v3/`, appends an
//! optional sub-path after the base path, and carries its query parameters in
//! the order they were appended, the `apikey` pair always first.

use vstd::prelude::*;
use vstd::string::StrSliceExecFns;
use vstd::string::StringExecFns;

use crate::error::CurrencyapiError;

verus! {

/// The characters that application/x-www-form-urlencoded serialization
/// passes through unchanged.
pub open spec fn form_safe_char(c: char) -> bool {
    c == '*' || c == '-' || c == '.' || c == '_' || ('0' <= c && c <= '9') || ('A' <= c
        && c <= 'Z') || ('a' <= c && c <= 'z')
}

/// Every character of `s` is passed through unchanged by the
/// form-urlencoded serialization.
pub open spec fn form_safe(s: Seq<char>) -> bool {
    forall|i: int| 0 <= i < s.len() ==> form_safe_char(s[i])
}

/// The application/x-www-form-urlencoded serialization of `s`, as the `url`
/// crate produces it when it appends a query pair.
pub uninterp spec fn form_encoded(s: Seq<char>) -> Seq<char>;

/// Relies on `url::form_urlencoded::byte_serialize`: it percent-encodes the
/// UTF-8 bytes of the input, a pure function of the input alone; its source
/// passes bytes in `*-._0-9A-Za-z` through unchanged, yields nothing for an
/// empty input, and emits only those bytes, `+` and `%` escapes of uppercase
/// hex digits — never `&` or `=`.
#[verifier::external_body]
fn encode_component(s: &str) -> (r: String)
    ensures
        r@ == form_encoded(s@),
        form_safe(s@) ==> r@ == s@,
        s@.len() == 0 ==> r@.len() == 0,
        forall|i: int| 0 <= i < r@.len() ==> r@[i] != '&' && r@[i] != '=',
{
    url::form_urlencoded::byte_serialize(s.as_bytes()).collect()
}

/// `s` with every leading '/' removed.
pub open spec fn trim_slashes(s: Seq<char>) -> Seq<char>
    decreases s.len(),
{
    if s.len() > 0 && s[0] == '/' {
        trim_slashes(s.subrange(1, s.len() as int))
    } else {
        s
    }
}

/// The path of a built request URL: the fixed base path `/v3/`, with the
/// requested sub-path, its leading slashes stripped, appended after it.
pub open spec fn built_path(with_path: Option<Seq<char>>) -> Seq<char> {
    match with_path {
        None => "/v3/"@,
        Some(p) => "/v3/"@ + trim_slashes(p),
    }
}

/// The query string right after construction: the api key as the sole pair.
pub open spec fn apikey_query(api_key: Seq<char>) -> Seq<char> {
    "apikey="@ + form_encoded(api_key)
}

/// One encoded `key=value` query pair.
pub open spec fn encoded_pair(key: Seq<char>, value: Seq<char>) -> Seq<char> {
    form_encoded(key) + "="@ + form_encoded(value)
}

/// `query` with one more pair appended: pairs are separated by '&', and an
/// appended pair always goes to the end, so pairs stand in the order in
/// which they were appended.
pub open spec fn appended_query(query: Seq<char>, key: Seq<char>, value: Seq<char>) -> Seq<char> {
    if query.len() == 0 {
        encoded_pair(key, value)
    } else {
        query + "&"@ + encoded_pair(key, value)
    }
}

/// What a request URL holds: its path and its query string.
pub ghost struct UrlView {
    pub path: Seq<char>,
    pub query: Seq<char>,
}

/// A fully qualified request URL against the fixed base address
/// `https://api.currencyapi.com`.
#[derive(Debug, Clone)]
pub struct RequestUrl {
    path: String,
    query: String,
}

/// The URL written as one string: scheme and host, then the path, then, if
/// the query is non-empty, '?' and the query string.
pub open spec fn spec_url_string(u: UrlView) -> Seq<char> {
    if u.query.len() == 0 {
        "https://api.currencyapi.com"@ + u.path
    } else {
        "https://api.currencyapi.com"@ + u.path + "?"@ + u.query
    }
}

impl View for RequestUrl {
    type V = UrlView;

    closed spec fn view(&self) -> UrlView {
        UrlView { path: self.path@, query: self.query@ }
    }
}

impl RequestUrl {
    /// The URL's path.
    pub fn path(&self) -> (r: &str)
        ensures
            r@ == self@.path,
    {
        self.path.as_str()
    }

    /// The URL's query string, or `None` if it is empty.
    pub fn query(&self) -> (r: Option<&str>)
        ensures
            match r {
                Some(q) => self@.query.len() > 0 && q@ == self@.query,
                None => self@.query.len() == 0,
            },
    {
        if self.query.as_str().is_empty() {
            None
        } else {
            Some(self.query.as_str())
        }
    }

    /// Appends one `key=value` pair, form-urlencoded, at the end of the
    /// query string; everything already there is kept in place.  A key and a
    /// value made of unreserved characters are taken over verbatim.
    pub fn append_pair(&mut self, key: &str, value: &str)
        ensures
            final(self)@.path == old(self)@.path,
            final(self)@.query == appended_query(old(self)@.query, key@, value@),
            form_safe(key@) && form_safe(value@) && old(self)@.query.len() > 0
                ==> final(self)@.query == old(self)@.query + "&"@ + key@ + "="@ + value@,
            old(self)@.query.len() > 0 ==> forall|i: int|
                old(self)@.query.len() + 1 <= i < final(self)@.query.len()
                    ==> final(self)@.query[i] != '&',
    {
        let ghost q0 = self.query@;
        if !self.query.as_str().is_empty() {
            self.query.append("&");
        }
        let encoded_key = encode_component(key);
        self.query.append(encoded_key.as_str());
        self.query.append("=");
        let encoded_value = encode_component(value);
        self.query.append(encoded_value.as_str());
        proof {
            if q0.len() == 0 {
                assert(self.query@ =~= encoded_pair(key@, value@));
            } else {
                assert(self.query@ =~= q0 + "&"@ + encoded_pair(key@, value@));
                if form_safe(key@) && form_safe(value@) {
                    assert(self.query@ =~= q0 + "&"@ + key@ + "="@ + value@);
                }
                reveal_strlit("&");
                reveal_strlit("=");
                assert(self.query@ =~= q0 + "&"@ + encoded_key@ + "="@ + encoded_value@);
                assert forall|i: int|
                    q0.len() + 1 <= i < self.query@.len() implies self.query@[i] != '&' by {
                    let k = q0.len() as int + 1;
                    if i < k + encoded_key@.len() {
                        assert(self.query@[i] == encoded_key@[i - k]);
                    } else if i == k + encoded_key@.len() {
                        assert(self.query@[i] == '=');
                    } else {
                        assert(self.query@[i] == encoded_value@[i - (k + encoded_key@.len() + 1)]);
                    }
                }
            }
        }
    }

    /// The URL as one string.
    pub fn url_string(&self) -> (r: String)
        ensures
            r@ == spec_url_string(self@),
    {
        let mut s = String::from_str("https://api.currencyapi.com");
        s.append(self.path.as_str());
        if !self.query.as_str().is_empty() {
            s.append("?");
            s.append(self.query.as_str());
        }
        s
    }
}

/// If the first `i` characters of `s` are '/' and the character at `i` (if
/// any) is not, then stripping the leading slashes of `s` leaves exactly the
/// part from `i` on.
proof fn lemma_trim_slashes_at(s: Seq<char>, i: int)
    requires
        0 <= i <= s.len(),
        forall|j: int| 0 <= j < i ==> s[j] == '/',
        i == s.len() || s[i] != '/',
    ensures
        trim_slashes(s) == s.subrange(i, s.len() as int),
    decreases i,
{
    if i == 0 {
        assert(s.subrange(0, s.len() as int) =~= s);
    } else {
        let t = s.subrange(1, s.len() as int);
        lemma_trim_slashes_at(t, i - 1);
        assert(t.subrange(i - 1, t.len() as int) =~= s.subrange(i, s.len() as int));
    }
}

/// Stripping leading slashes ignores one more leading slash: a sub-path with
/// and without a leading '/' builds the same request path.
pub proof fn lemma_leading_slash_idempotent(p: Seq<char>)
    ensures
        built_path(Some("/"@ + p)) == built_path(Some(p)),
{
    reveal_strlit("/");
    let s = "/"@ + p;
    assert(s[0] == '/');
    assert(s.subrange(1, s.len() as int) =~= p);
}

/// The query built for an api key starts with `apikey=`; the key's encoding
/// follows right after, so the `apikey` pair stands before every pair that
/// is appended later.
pub proof fn lemma_apikey_first(api_key: Seq<char>)
    ensures
        apikey_query(api_key).len() >= 7,
        apikey_query(api_key).subrange(0, 7) == "apikey="@,
{
    reveal_strlit("apikey=");
    assert(apikey_query(api_key).subrange(0, 7) =~= "apikey="@);
}

/// Appending a query pair never touches what the query already holds: the
/// old query stays as a strict prefix, followed by '&' and the new pair at
/// the very end, so the relative order of appended pairs is the order of the
/// append calls.
pub proof fn lemma_append_keeps_order(query: Seq<char>, key: Seq<char>, value: Seq<char>)
    requires
        query.len() > 0,
    ensures
        appended_query(query, key, value).len() > query.len(),
        appended_query(query, key, value).subrange(0, query.len() as int) == query,
        appended_query(query, key, value)[query.len() as int] == '&',
        appended_query(query, key, value).subrange(
            query.len() as int + 1,
            appended_query(query, key, value).len() as int,
        ) == encoded_pair(key, value),
{
    reveal_strlit("&");
    reveal_strlit("=");
    assert(appended_query(query, key, value).subrange(0, query.len() as int) =~= query);
    assert(appended_query(query, key, value).subrange(
        query.len() as int + 1,
        appended_query(query, key, value).len() as int,
    ) =~= encoded_pair(key, value));
}

/// The base path prefix `/v3/` is always preserved: a requested sub-path is
/// appended after it, never in place of it.
pub proof fn lemma_base_path_preserved(with_path: Option<Seq<char>>)
    ensures
        built_path(with_path).len() >= 4,
        built_path(with_path).subrange(0, 4) == "/v3/"@,
{
    reveal_strlit("/v3/");
    match with_path {
        None => {
            assert(built_path(None).subrange(0, 4) =~= "/v3/"@);
        },
        Some(p) => {
            assert(built_path(Some(p)).subrange(0, 4) =~= "/v3/"@);
        },
    }
}

/// Builds the request URL for `with_path` against the fixed base address:
/// the sub-path, its leading slashes stripped, goes after the base path
/// `/v3/`, and the api key becomes the sole query pair `apikey=<key>`.
/// Since the base is a fixed constant, construction always succeeds; the
/// `Result` keeps the defensive `UrlConstruction` surface for callers.
///
/// The sub-path is appended verbatim: every supported operation passes a
/// fixed URL-safe segment, and a caller-supplied sub-path must be one too —
/// characters a URL path cannot carry raw are not escaped here.
pub fn construct_base_url(api_key: &str, with_path: Option<&str>) -> (r: Result<
    RequestUrl,
    CurrencyapiError,
>)
    ensures
        r matches Ok(u),
        r matches Ok(u) ==> u@.path == built_path(
            match with_path {
                None => None,
                Some(p) => Some(p@),
            },
        ),
        r matches Ok(u) ==> u@.query == apikey_query(api_key@),
        r matches Ok(u) ==> form_safe(api_key@) ==> u@.query == "apikey="@ + api_key@,
        r matches Ok(u) ==> u@.query.len() >= 7 && u@.query[6] == '=' && forall|i: int|
            0 <= i < u@.query.len() ==> u@.query[i] != '&' && (i != 6 ==> u@.query[i] != '='),
{
    let mut path = String::from_str("/v3/");
    match with_path {
        None => {},
        Some(p) => {
            let n = p.unicode_len();
            let mut i: usize = 0;
            loop
                invariant
                    i <= n,
                    p@.len() == n as nat,
                    forall|j: int| 0 <= j < i ==> p@[j] == '/',
                ensures
                    i <= n,
                    p@.len() == n as nat,
                    forall|j: int| 0 <= j < i ==> p@[j] == '/',
                    i == n || p@[i as int] != '/',
                decreases n - i,
            {
                if i == n {
                    break ;
                }
                if p.get_char(i) != '/' {
                    break ;
                }
                i = i + 1;
            }
            let rest = p.substring_char(i, n);
            proof {
                lemma_trim_slashes_at(p@, i as int);
            }
            path.append(rest);
        },
    }
    let mut query = String::from_str("apikey=");
    let encoded_key = encode_component(api_key);
    query.append(encoded_key.as_str());
    proof {
        reveal_strlit("apikey=");
        assert(query@ =~= "apikey="@ + encoded_key@);
        assert forall|i: int|
            0 <= i < query@.len() implies query@[i] != '&' && (i != 6 ==> query@[i] != '=') by {
            if i >= 7 {
                assert(query@[i] == encoded_key@[i - 7]);
            }
        }
    }
    Ok(RequestUrl { path, query })
}

} // verus!

