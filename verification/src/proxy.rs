//! The proxy specification: one string that names a proxy for each of the two
//! traffic classes, API calls and bulk transfer, with a colon between the
//! two. An address may hold colons of its own, after its scheme and before
//! its password and its port, so which colon parts the two is settled by a
//! rule:
//!
//! - where the text begins with a colon, that colon: only transfer goes
//!   through a proxy;
//! - else, where the text ends with a colon, that colon: only API calls go
//!   through a proxy;
//! - else the last colon that `http://` or `https://` follows directly;
//! - else the first colon that belongs to no address. The colon of a scheme,
//!   which `//` follows directly, always belongs to its address. Where the
//!   text holds more colons than one, so do the colon before a password,
//!   which is followed by an `@` before any colon or slash, and the colon
//!   before a port, which digits follow up to the end of the text, a slash
//!   or a colon.
//!
//! A text without a colon names no traffic class and is refused. So is a text
//! of which every colon belongs to an address, such as a single address with
//! a scheme.

use crate::text::{
    digits_len, is_digit, lemma_digits_len_is, lemma_occurrences_concat, lemma_occurrences_none,
    occurrences, split_once, split_single, starts_with,
};
use vstd::prelude::*;

verus! {

/// `reqwest::Proxy`, of which nothing is known here.
#[verifier::external_type_specification]
#[verifier::external_body]
pub struct ExProxy(reqwest::Proxy);

/// `reqwest::Error`, of which nothing is known here.
#[verifier::external_type_specification]
#[verifier::external_body]
pub struct ExRequestError(reqwest::Error);

/// Whether the HTTP client accepts `url` as the address of a proxy for all
/// traffic. It is what `reqwest::Proxy::all` decides on the text alone.
pub uninterp spec fn proxy_url_accepted(url: Seq<char>) -> bool;

/// Calls `reqwest::Proxy::all` on `url`. The HTTP client is built without
/// SOCKS support, so the call resolves no name: it parses the text and
/// nothing else, and whether it succeeds is a property of the text. The
/// contract gives that property its name and claims no more.
#[verifier::external_body]
fn proxy_for_all(url: &str) -> (r: Result<reqwest::Proxy, reqwest::Error>)
    ensures
        r is Ok <==> proxy_url_accepted(url@),
{
    reqwest::Proxy::all(url)
}

/// The message of a `reqwest::Error`, as its `Display` writes it. Nothing is
/// claimed of the text.
#[verifier::external_body]
fn request_error_text(error: &reqwest::Error) -> String {
    error.to_string()
}

/// The character that parts the two halves of a proxy specification.
pub open spec fn separator() -> char {
    ':'
}

/// Whether `t` begins like an address with a scheme.
pub open spec fn begins_with_scheme(t: Seq<char>) -> bool {
    "http://"@.is_prefix_of(t) || "https://"@.is_prefix_of(t)
}

/// Whether `t` begins like what follows the colon of a scheme.
pub open spec fn begins_with_slashes(t: Seq<char>) -> bool {
    "//"@.is_prefix_of(t)
}

/// Whether `t` begins like a port: with one digit or more, up to the end of
/// `t`, a slash or a colon.
pub open spec fn begins_with_port(t: Seq<char>) -> bool {
    let d = digits_len(t) as int;
    d > 0 && (d == t.len() || t[d] == '/' || t[d] == separator())
}

/// Whether `c` ends the name or the password of a user in an address.
pub open spec fn is_mark(c: char) -> bool {
    c == '@' || c == '/' || c == separator()
}

/// The index of the first `@`, slash or colon of `t`, or its length where it
/// holds none.
pub open spec fn first_mark(t: Seq<char>) -> int
    decreases t.len(),
{
    if t.len() == 0 {
        0
    } else if is_mark(t[0]) {
        0
    } else {
        1 + first_mark(t.drop_first())
    }
}

/// Whether `t` begins like a password: with text that an `@` ends, before
/// any slash or colon.
pub open spec fn begins_with_password(t: Seq<char>) -> bool {
    first_mark(t) < t.len() && t[first_mark(t)] == '@'
}

/// What stands in `s` after index `i`.
pub open spec fn after(s: Seq<char>, i: int) -> Seq<char> {
    s.subrange(i + 1, s.len() as int)
}

/// Whether index `i` of `s` holds a colon that an address with a scheme
/// follows directly.
pub open spec fn is_scheme_colon(s: Seq<char>, i: int) -> bool {
    0 <= i < s.len() && s[i] == separator() && begins_with_scheme(after(s, i))
}

/// Whether `s` holds exactly one colon.
pub open spec fn has_single_colon(s: Seq<char>) -> bool {
    occurrences(s, separator()) == 1
}

/// Whether index `i` of `s` holds a colon that belongs to no address: `//`
/// does not follow it, and it is the only colon of `s` or neither a password
/// nor a port follows it.
pub open spec fn is_free_colon(s: Seq<char>, i: int) -> bool {
    &&& 0 <= i < s.len()
    &&& s[i] == separator()
    &&& !begins_with_slashes(after(s, i))
    &&& has_single_colon(s) || !(begins_with_password(after(s, i)) || begins_with_port(
        after(s, i),
    ))
}

/// The last index below `n` that holds a colon which an address with a
/// scheme follows, or -1 where there is none.
pub open spec fn last_scheme_colon(s: Seq<char>, n: int) -> int
    decreases n,
{
    if n <= 0 {
        -1
    } else if is_scheme_colon(s, n - 1) {
        n - 1
    } else {
        last_scheme_colon(s, n - 1)
    }
}

/// The first index from `from` on that holds a colon which belongs to no
/// address, or the length of `s` where there is none.
pub open spec fn first_free_colon(s: Seq<char>, from: int) -> int
    decreases s.len() - from,
{
    if from >= s.len() {
        s.len() as int
    } else if is_free_colon(s, from) {
        from
    } else {
        first_free_colon(s, from + 1)
    }
}

/// The index of the colon that parts the two halves of `s`, `None` where
/// `s` holds no such colon.
pub open spec fn separator_index(s: Seq<char>) -> Option<int> {
    if s.len() > 0 && s[0] == separator() {
        Some(0)
    } else if s.len() > 0 && s.last() == separator() {
        Some(s.len() - 1)
    } else if last_scheme_colon(s, s.len() as int) >= 0 {
        Some(last_scheme_colon(s, s.len() as int))
    } else if first_free_colon(s, 0) < s.len() {
        Some(first_free_colon(s, 0))
    } else {
        None
    }
}

/// What stands before the separator of `s`.
pub open spec fn api_part(s: Seq<char>) -> Seq<char>
    recommends
        separator_index(s) is Some,
{
    s.subrange(0, separator_index(s)->0)
}

/// What stands after the separator of `s`.
pub open spec fn transfer_part(s: Seq<char>) -> Seq<char>
    recommends
        separator_index(s) is Some,
{
    after(s, separator_index(s)->0)
}

/// The proxies of the two traffic classes, each by its address; `None` is a
/// direct connection.
#[derive(Clone, Debug, PartialEq, Eq)]
pub struct ProxySpec {
    pub api_proxy: Option<String>,
    pub transfer_proxy: Option<String>,
}

/// Whether `url` is an address that can stand in a specification: it is not
/// empty and the HTTP client accepts it.
pub open spec fn is_proxy_address(url: Seq<char>) -> bool {
    url.len() > 0 && proxy_url_accepted(url)
}

/// The address of an optional proxy, the empty text for none.
pub open spec fn endpoint_url(endpoint: Option<String>) -> Seq<char> {
    match endpoint {
        Some(url) => url@,
        None => Seq::empty(),
    }
}

impl ProxySpec {
    /// Each address that is there is one that the HTTP client accepts.
    pub open spec fn wf(&self) -> bool {
        &&& self.api_proxy matches Some(url) ==> is_proxy_address(url@)
        &&& self.transfer_proxy matches Some(url) ==> is_proxy_address(url@)
    }
}

/// Why a proxy specification was refused.
#[derive(Clone, Debug, PartialEq, Eq)]
pub enum ProxyError {
    /// The text holds no colon.
    MissingSeparator,
    /// The text holds colons, but each of them belongs to an address: a
    /// single address was given, or it cannot be told where one address
    /// ends and the other begins.
    UndecidedSeparator,
    /// What stands before the separator is no proxy address.
    InvalidApiProxy { url: String, reason: String },
    /// What stands after the separator is no proxy address.
    InvalidTransferProxy { url: String, reason: String },
}

/// What parsing owes for a text whose halves are `api` and `transfer`: each
/// half that is not empty must be a proxy address, and then is the proxy of
/// its traffic class; an empty half is no proxy. The first half that is no
/// proxy address is named in the refusal.
pub open spec fn parsed_as(
    api: Seq<char>,
    transfer: Seq<char>,
    r: Result<ProxySpec, ProxyError>,
) -> bool {
    let api_fine = api.len() == 0 || proxy_url_accepted(api);
    let transfer_fine = transfer.len() == 0 || proxy_url_accepted(transfer);
    match r {
        Ok(spec) => {
            &&& api_fine
            &&& transfer_fine
            &&& spec.wf()
            &&& spec.api_proxy is Some <==> api.len() > 0
            &&& spec.transfer_proxy is Some <==> transfer.len() > 0
            &&& endpoint_url(spec.api_proxy) =~= api
            &&& endpoint_url(spec.transfer_proxy) =~= transfer
        },
        Err(ProxyError::MissingSeparator) => false,
        Err(ProxyError::UndecidedSeparator) => false,
        Err(ProxyError::InvalidApiProxy { url, .. }) => !api_fine && url@ == api,
        Err(ProxyError::InvalidTransferProxy { url, .. }) => {
            &&& api_fine
            &&& !transfer_fine
            &&& url@ == transfer
        },
    }
}

/// What `parse_proxies` owes for the text `s`.
pub open spec fn parse_proxies_spec(s: Seq<char>, r: Result<ProxySpec, ProxyError>) -> bool {
    match separator_index(s) {
        None => if s.contains(separator()) {
            r matches Err(ProxyError::UndecidedSeparator)
        } else {
            r matches Err(ProxyError::MissingSeparator)
        },
        Some(_) => parsed_as(api_part(s), transfer_part(s), r),
    }
}

/// `last_scheme_colon` is below `n`; where it is an index, that index holds
/// such a colon, and none stands between it and `n`.
pub proof fn lemma_last_scheme_colon(s: Seq<char>, n: int)
    requires
        0 <= n <= s.len(),
    ensures
        -1 <= last_scheme_colon(s, n) < n,
        last_scheme_colon(s, n) >= 0 ==> is_scheme_colon(s, last_scheme_colon(s, n)),
        forall|j: int| last_scheme_colon(s, n) < j < n ==> !is_scheme_colon(s, j),
    decreases n,
{
    if n > 0 && !is_scheme_colon(s, n - 1) {
        lemma_last_scheme_colon(s, n - 1);
    }
}

/// `first_free_colon` is not below `from`; where it is an index, that index
/// holds such a colon, and none stands between `from` and it.
pub proof fn lemma_first_free_colon(s: Seq<char>, from: int)
    requires
        0 <= from <= s.len(),
    ensures
        from <= first_free_colon(s, from) <= s.len(),
        first_free_colon(s, from) < s.len() ==> is_free_colon(s, first_free_colon(s, from)),
        forall|j: int| from <= j < first_free_colon(s, from) ==> !is_free_colon(s, j),
    decreases s.len() - from,
{
    if from < s.len() && !is_free_colon(s, from) {
        lemma_first_free_colon(s, from + 1);
    }
}

/// Whether an address with a scheme follows index `i` of `s` directly.
fn scheme_follows(s: &str, n: usize, i: usize) -> (r: bool)
    requires
        n == s@.len(),
        i < n,
    ensures
        r == begins_with_scheme(after(s@, i as int)),
{
    let rest = s.substring_char(i + 1, n);
    starts_with(rest, "http://") || starts_with(rest, "https://")
}

/// Whether `//` follows index `i` of `s` directly.
fn slashes_follow(s: &str, n: usize, i: usize) -> (r: bool)
    requires
        n == s@.len(),
        i < n,
    ensures
        r == begins_with_slashes(after(s@, i as int)),
{
    let rest = s.substring_char(i + 1, n);
    starts_with(rest, "//")
}

/// An index that holds a mark and has none before it is the `first_mark`;
/// so is the length where there is no mark at all.
pub proof fn lemma_first_mark_is(t: Seq<char>, n: int)
    requires
        0 <= n <= t.len(),
        forall|j: int| 0 <= j < n ==> !is_mark(t[j]),
        n < t.len() ==> is_mark(t[n]),
    ensures
        first_mark(t) == n,
    decreases t.len(),
{
    if t.len() > 0 && !is_mark(t[0]) {
        let rest = t.drop_first();
        assert forall|j: int| 0 <= j < n - 1 implies !is_mark(rest[j]) by {
            assert(rest[j] == t[j + 1]);
        }
        if n < t.len() {
            assert(rest[n - 1] == t[n]);
        }
        lemma_first_mark_is(rest, n - 1);
    }
}

/// Whether a password follows index `i` of `s` directly.
fn password_follows(s: &str, n: usize, i: usize) -> (r: bool)
    requires
        n == s@.len(),
        i < n,
    ensures
        r == begins_with_password(after(s@, i as int)),
{
    let mut j: usize = i + 1;
    let mut scanning = true;
    while scanning && j < n
        invariant
            i < j <= n,
            n == s@.len(),
            forall|m: int| i < m < j ==> !is_mark(s@[m]),
            !scanning ==> j < n && is_mark(s@[j as int]),
        decreases n - j + (if scanning { 1int } else { 0int }),
    {
        let c = s.get_char(j);
        if c == '@' || c == '/' || c == ':' {
            scanning = false;
        } else {
            j += 1;
        }
    }
    proof {
        let t = after(s@, i as int);
        assert forall|m: int| 0 <= m < j - i - 1 implies !is_mark(t[m]) by {
            assert(t[m] == s@[i + 1 + m]);
        }
        if j < n {
            assert(t[j - i - 1] == s@[j as int]);
        }
        lemma_first_mark_is(t, j - i - 1);
    }
    j < n && s.get_char(j) == '@'
}

/// Whether a port follows index `i` of `s` directly.
fn port_follows(s: &str, n: usize, i: usize) -> (r: bool)
    requires
        n == s@.len(),
        i < n,
    ensures
        r == begins_with_port(after(s@, i as int)),
{
    let mut j: usize = i + 1;
    let mut scanning = true;
    while scanning && j < n
        invariant
            i < j <= n,
            n == s@.len(),
            forall|m: int| i < m < j ==> is_digit(s@[m]),
            !scanning ==> j < n && !is_digit(s@[j as int]),
        decreases n - j + (if scanning { 1int } else { 0int }),
    {
        let c = s.get_char(j);
        if '0' <= c && c <= '9' {
            j += 1;
        } else {
            scanning = false;
        }
    }
    proof {
        let t = after(s@, i as int);
        assert forall|m: int| 0 <= m < j - i - 1 implies is_digit(t[m]) by {
            assert(t[m] == s@[i + 1 + m]);
        }
        if j < n {
            assert(t[j - i - 1] == s@[j as int]);
        }
        lemma_digits_len_is(t, j - i - 1);
    }
    j > i + 1 && (j == n || s.get_char(j) == '/' || s.get_char(j) == ':')
}

/// Finds the colon that parts the two halves of `s`.
pub fn separator_position(s: &str) -> (r: Option<usize>)
    ensures
        separator_index(s@) == match r {
            Some(i) => Some(i as int),
            None => None,
        },
        r matches Some(i) ==> i < s@.len(),
{
    let n = s.unicode_len();
    if n == 0 {
        return None;
    }
    if s.get_char(0) == ':' {
        return Some(0);
    }
    if s.get_char(n - 1) == ':' {
        return Some(n - 1);
    }
    let single = split_single(s, ':').is_some();
    let mut k: usize = n;
    while k > 0
        invariant
            k <= n,
            n == s@.len(),
            n > 0 && s@[0] != separator() && s@.last() != separator(),
            forall|j: int| k <= j < n ==> !is_scheme_colon(s@, j),
        decreases k,
    {
        k -= 1;
        if s.get_char(k) == ':' && scheme_follows(s, n, k) {
            proof {
                lemma_last_scheme_colon(s@, n as int);
                assert(is_scheme_colon(s@, k as int));
            }
            return Some(k);
        }
    }
    let mut i: usize = 0;
    while i < n
        invariant
            i <= n,
            n == s@.len(),
            n > 0 && s@[0] != separator() && s@.last() != separator(),
            single == has_single_colon(s@),
            forall|j: int| 0 <= j < n ==> !is_scheme_colon(s@, j),
            forall|j: int| 0 <= j < i ==> !is_free_colon(s@, j),
        decreases n - i,
    {
        if s.get_char(i) == ':' && !slashes_follow(s, n, i) && (single || !(password_follows(
            s,
            n,
            i,
        ) || port_follows(s, n, i))) {
            proof {
                lemma_last_scheme_colon(s@, n as int);
                lemma_first_free_colon(s@, 0);
                assert(is_free_colon(s@, i as int));
            }
            return Some(i);
        }
        i += 1;
    }
    proof {
        lemma_last_scheme_colon(s@, n as int);
        lemma_first_free_colon(s@, 0);
    }
    None
}

/// Checks one half of a specification: none for the empty text, else the
/// address, if the HTTP client makes a proxy of it, or the client's refusal.
fn parse_endpoint(part: &str) -> (r: Result<Option<String>, String>)
    ensures
        r is Ok <==> (part@.len() == 0 || proxy_url_accepted(part@)),
        r matches Ok(endpoint) ==> {
            &&& endpoint is Some <==> part@.len() > 0
            &&& endpoint matches Some(url) ==> url@ == part@
        },
{
    if part.unicode_len() == 0 {
        return Ok(None);
    }
    match proxy_for_all(part) {
        Ok(_) => Ok(Some(part.to_owned())),
        Err(error) => Err(request_error_text(&error)),
    }
}

/// Parses a proxy specification: the text is split at its separator, and
/// each half that is not empty must be a proxy address. A text without a
/// colon, and a text of which every colon belongs to an address, is refused.
pub fn parse_proxies(s: &str) -> (r: Result<ProxySpec, ProxyError>)
    ensures
        parse_proxies_spec(s@, r),
{
    let n = s.unicode_len();
    match separator_position(s) {
        None => {
            if split_once(s, ':').is_none() {
                Err(ProxyError::MissingSeparator)
            } else {
                Err(ProxyError::UndecidedSeparator)
            }
        },
        Some(i) => {
            let api = s.substring_char(0, i);
            let transfer = s.substring_char(i + 1, n);
            match parse_endpoint(api) {
                Err(reason) => Err(ProxyError::InvalidApiProxy { url: api.to_owned(), reason }),
                Ok(api_proxy) => match parse_endpoint(transfer) {
                    Err(reason) => Err(
                        ProxyError::InvalidTransferProxy { url: transfer.to_owned(), reason },
                    ),
                    Ok(transfer_proxy) => Ok(ProxySpec { api_proxy, transfer_proxy }),
                },
            }
        },
    }
}

/// Whether `t` holds no colon that an address with a scheme follows
/// directly.
pub open spec fn no_scheme_colon(t: Seq<char>) -> bool {
    forall|j: int| !is_scheme_colon(t, j)
}

/// Whether every colon that `s` holds below index `n` belongs to an
/// address.
pub open spec fn no_free_colon_before(s: Seq<char>, n: int) -> bool {
    forall|j: int| 0 <= j < n ==> !is_free_colon(s, j)
}

/// Whether `t` begins with a colon.
pub open spec fn begins_with_colon(t: Seq<char>) -> bool {
    t.len() > 0 && t[0] == separator()
}

/// Whether `t` ends with a colon.
pub open spec fn ends_with_colon(t: Seq<char>) -> bool {
    t.len() > 0 && t.last() == separator()
}

/// Whether the text made of `a`, a colon and `b` is parted at that colon.
/// It is where `a` is empty. Where `a` is not empty, it must not begin with
/// a colon, and `b` is empty or does not end with a colon; and where `b` is
/// not empty, either `b` begins with a scheme and holds no colon that a
/// scheme follows, or no scheme follows any colon of the text, the colon
/// before `b` belongs to no address and every colon before it belongs to
/// one.
pub open spec fn splits_as_written(a: Seq<char>, b: Seq<char>) -> bool {
    let s = a + seq![separator()] + b;
    a.len() == 0 || (!begins_with_colon(a) && (b.len() == 0 || (!ends_with_colon(b) && ((
    begins_with_scheme(b) && no_scheme_colon(b)) || (no_scheme_colon(s) && is_free_colon(
        s,
        a.len() as int,
    ) && no_free_colon_before(s, a.len() as int))))))
}

/// The text made of `a`, a colon and `b` is parted at that colon exactly
/// where `splits_as_written` says so, and then `a` and `b` are its halves.
pub proof fn lemma_split_joined(a: Seq<char>, b: Seq<char>)
    ensures
        separator_index(a + seq![separator()] + b) == Some(a.len() as int) <==> splits_as_written(
            a,
            b,
        ),
        splits_as_written(a, b) ==> api_part(a + seq![separator()] + b) == a && transfer_part(
            a + seq![separator()] + b,
        ) == b,
{
    let s = a + seq![separator()] + b;
    let k = a.len() as int;
    let n = s.len() as int;
    assert(s[k] == separator());
    assert(after(s, k) =~= b);
    assert(s.subrange(0, k) =~= a);
    assert forall|j: int| k < j < n implies is_scheme_colon(s, j) == is_scheme_colon(
        b,
        j - k - 1,
    ) by {
        assert(after(s, j) =~= after(b, j - k - 1));
        assert(s[j] == b[j - k - 1]);
    }
    lemma_last_scheme_colon(s, n);
    lemma_first_free_colon(s, 0);
    let l = last_scheme_colon(s, n);
    let f = first_free_colon(s, 0);
    if a.len() == 0 {
    } else if a[0] == separator() {
        assert(s[0] == a[0]);
    } else if b.len() == 0 {
        assert(s[0] == a[0]);
        assert(s.last() == separator());
    } else if b.last() == separator() {
        assert(s[0] == a[0]);
        assert(s.last() == b.last());
    } else {
        assert(s[0] == a[0]);
        assert(s.last() == b.last());
        if l >= 0 {
            assert(is_scheme_colon(s, l));
            if begins_with_scheme(b) && no_scheme_colon(b) {
                assert(is_scheme_colon(s, k));
                if l > k {
                    assert(is_scheme_colon(b, l - k - 1));
                }
                assert(l == k);
            } else if l == k {
                assert(begins_with_scheme(b));
                assert forall|j: int| !is_scheme_colon(b, j) by {
                    if is_scheme_colon(b, j) {
                        assert(is_scheme_colon(s, j + k + 1));
                    }
                }
                assert(false);
            }
        } else {
            assert forall|j: int| !is_scheme_colon(s, j) by {}
            if begins_with_scheme(b) {
                assert(is_scheme_colon(s, k));
            }
            if is_free_colon(s, k) && no_free_colon_before(s, k) {
                if f < k {
                    assert(is_free_colon(s, f));
                }
                assert(f == k);
            } else if f == k {
                assert(is_free_colon(s, k));
                assert(false);
            }
        }
    }
}

/// Parsing `a`, a colon and `b`, where the text is parted at that colon:
/// where each of the two is empty or a proxy address, the result holds `a`
/// for the API and `b` for transfer, an empty one as no proxy; where one
/// that is not empty is no proxy address, parsing fails and names the first
/// such.
pub proof fn law_parse_joined(a: Seq<char>, b: Seq<char>, r: Result<ProxySpec, ProxyError>)
    requires
        splits_as_written(a, b),
        parse_proxies_spec(a + seq![separator()] + b, r),
    ensures
        parsed_as(a, b, r),
{
    lemma_split_joined(a, b);
}

/// A colon followed by an address names the proxy of transfer alone,
/// whatever the address holds: the result has no proxy for the API and `b`
/// for transfer where the HTTP client accepts `b`, and is a refusal that
/// names `b` where it does not.
pub proof fn law_transfer_only(b: Seq<char>, r: Result<ProxySpec, ProxyError>)
    requires
        parse_proxies_spec(seq![separator()] + b, r),
    ensures
        parsed_as(Seq::empty(), b, r),
        b.len() > 0 && proxy_url_accepted(b) ==> (r matches Ok(spec) && spec.api_proxy is None
            && spec.transfer_proxy is Some && endpoint_url(spec.transfer_proxy) == b),
        b.len() > 0 && !proxy_url_accepted(b) ==> (r matches Err(
            ProxyError::InvalidTransferProxy { url, .. },
        ) && url@ == b),
{
    let none = Seq::<char>::empty();
    assert(none + seq![separator()] + b =~= seq![separator()] + b);
    lemma_split_joined(none, b);
}

/// An address followed by a colon names the proxy of API calls alone,
/// whatever the address holds after its first character: the result has `a`
/// for the API and no proxy for transfer where the HTTP client accepts `a`,
/// and is a refusal that names `a` where it does not. A text that begins
/// with a colon is parted there, so `a` must not begin with one.
pub proof fn law_api_only(a: Seq<char>, r: Result<ProxySpec, ProxyError>)
    requires
        !begins_with_colon(a),
        parse_proxies_spec(a + seq![separator()], r),
    ensures
        parsed_as(a, Seq::empty(), r),
        a.len() > 0 && proxy_url_accepted(a) ==> (r matches Ok(spec)
            && spec.transfer_proxy is None && spec.api_proxy is Some && endpoint_url(
            spec.api_proxy,
        ) == a),
        a.len() > 0 && !proxy_url_accepted(a) ==> (r matches Err(
            ProxyError::InvalidApiProxy { url, .. },
        ) && url@ == a),
{
    let none = Seq::<char>::empty();
    assert(a + seq![separator()] + none =~= a + seq![separator()]);
    lemma_split_joined(a, none);
}

/// Two addresses with a colon between them, the second with a scheme, name
/// the proxy of API calls and the proxy of transfer, in that order. The
/// first does not begin with a colon and may hold anything else. The second
/// begins with `http://` or `https://`, holds no colon that such a scheme
/// follows and does not end with a colon. Where the HTTP client accepts
/// both, the result has `a` for the API and `b` for transfer; else parsing
/// fails and names the first that it does not accept.
pub proof fn law_both(a: Seq<char>, b: Seq<char>, r: Result<ProxySpec, ProxyError>)
    requires
        !begins_with_colon(a),
        begins_with_scheme(b),
        no_scheme_colon(b),
        !ends_with_colon(b),
        parse_proxies_spec(a + seq![separator()] + b, r),
    ensures
        parsed_as(a, b, r),
        a.len() > 0 && proxy_url_accepted(a) && proxy_url_accepted(b) ==> (r matches Ok(spec)
            && spec.api_proxy is Some && endpoint_url(spec.api_proxy) == a
            && spec.transfer_proxy is Some && endpoint_url(spec.transfer_proxy) == b),
        a.len() > 0 && !proxy_url_accepted(a) ==> (r matches Err(
            ProxyError::InvalidApiProxy { url, .. },
        ) && url@ == a),
        (a.len() == 0 || proxy_url_accepted(a)) && !proxy_url_accepted(b) ==> (r matches Err(
            ProxyError::InvalidTransferProxy { url, .. },
        ) && url@ == b),
{
    lemma_scheme_holds_colon(b);
    lemma_split_joined(a, b);
}

/// Two texts without a colon, with one colon between them, name the proxy
/// of API calls and the proxy of transfer, in that order: a text with a
/// single colon is parted at it. The one exception is a colon that `//`
/// follows, which is the colon of a scheme.
pub proof fn law_single_colon(a: Seq<char>, b: Seq<char>, r: Result<ProxySpec, ProxyError>)
    requires
        !a.contains(separator()),
        !b.contains(separator()),
        !begins_with_slashes(b),
        parse_proxies_spec(a + seq![separator()] + b, r),
    ensures
        parsed_as(a, b, r),
        a.len() > 0 && b.len() > 0 && proxy_url_accepted(a) && proxy_url_accepted(b) ==> (
        r matches Ok(spec) && spec.api_proxy is Some && endpoint_url(spec.api_proxy) == a
            && spec.transfer_proxy is Some && endpoint_url(spec.transfer_proxy) == b),
{
    let s = a + seq![separator()] + b;
    let k = a.len() as int;
    let mid = seq![separator()];
    if a.len() > 0 && b.len() > 0 {
        assert(a[0] != separator()) by {
            if a[0] == separator() {
                assert(a.contains(separator()));
            }
        }
        assert(b.last() != separator()) by {
            if b.last() == separator() {
                assert(b[b.len() - 1] == separator());
                assert(b.contains(separator()));
            }
        }
        assert(has_single_colon(s)) by {
            lemma_occurrences_concat(a + mid, b, separator());
            lemma_occurrences_concat(a, mid, separator());
            lemma_occurrences_none(a, separator());
            lemma_occurrences_none(b, separator());
            assert(mid.drop_last() =~= Seq::<char>::empty());
            assert(mid.last() == separator());
            assert(occurrences(mid.drop_last(), separator()) == 0);
            assert(occurrences(mid, separator()) == 1);
        }
        assert(after(s, k) =~= b);
        assert forall|j: int| 0 <= j < s.len() && s[j] == separator() implies j == k by {
            if j < k {
                assert(a[j] == s[j]);
                assert(a.contains(separator()));
            } else if j > k {
                assert(b[j - k - 1] == s[j]);
                assert(b.contains(separator()));
            }
        }
        assert(!begins_with_scheme(b)) by {
            if begins_with_scheme(b) {
                lemma_scheme_holds_colon(b);
            }
        }
        assert(no_scheme_colon(s));
        assert(is_free_colon(s, k));
        assert(no_free_colon_before(s, k));
    }
    lemma_split_joined(a, b);
}

/// What begins with a scheme is not empty and holds a colon.
pub proof fn lemma_scheme_holds_colon(t: Seq<char>)
    requires
        begins_with_scheme(t),
    ensures
        t.len() >= 7,
        t.contains(separator()),
{
    reveal_strlit("http://");
    reveal_strlit("https://");
    if "http://"@.is_prefix_of(t) {
        assert(t.subrange(0, 7)[4] == ':');
        assert(t[4] == separator());
    } else {
        assert(t.subrange(0, 8)[5] == ':');
        assert(t[5] == separator());
    }
}

} // verus!
