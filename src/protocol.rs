//! The `streamking:` deep-link parser.
//!
//! A link reads `streamking://play?url=U&title=T&position=P` or
//! `streamking:play?url=U&title=T&position=P`. `url` is required, `title`
//! falls back to a fixed default, and `position` is a resume offset in
//! seconds, written as decimal digits with an optional fractional part.

use vstd::prelude::*;
use crate::text::{all_digits, is_digit, same_text};
use crate::uri::{
    split_uri, uri_host, uri_parses, uri_path, uri_query_pairs, uri_scheme, UriParts,
};

verus! {

/// The scheme prefix that every accepted link starts with.
pub const SCHEME_PREFIX: &'static str = "streamking:";

/// The title used when a link gives none.
pub const DEFAULT_TITLE: &'static str = "Stream King";

/// Key/value pairs of a query, as views.
pub type QueryView = Seq<(Seq<char>, Seq<char>)>;

/// A resume offset in seconds: `whole.fraction`, both runs of decimal digits,
/// not both empty.
#[derive(Debug, Clone, PartialEq, Eq)]
pub struct Seconds {
    pub whole: String,
    pub fraction: String,
}

impl View for Seconds {
    type V = (Seq<char>, Seq<char>);

    open spec fn view(&self) -> (Seq<char>, Seq<char>) {
        (self.whole@, self.fraction@)
    }
}

/// A resolved playback request.
#[derive(Debug, Clone, PartialEq, Eq)]
pub struct PlayParams {
    pub url: String,
    pub title: String,
    pub start_position: Option<Seconds>,
}

/// The model of a playback request: source URL, title, resume offset.
pub type PlayView = (Seq<char>, Seq<char>, Option<(Seq<char>, Seq<char>)>);

impl View for PlayParams {
    type V = PlayView;

    open spec fn view(&self) -> PlayView {
        (self.url@, self.title@, seconds_opt_view(self.start_position))
    }
}

impl Seconds {
    /// The offset as decimal text: `whole.fraction`, or `whole` alone when
    /// there is no fractional digit.
    pub fn to_text(&self) -> (r: String)
        ensures
            r@ == if self.fraction@.len() == 0 {
                self.whole@
            } else {
                self.whole@ + "."@ + self.fraction@
            },
    {
        if self.fraction.unicode_len() == 0 {
            self.whole.clone()
        } else {
            self.whole.clone().concat(".").concat(self.fraction.as_str())
        }
    }
}

pub open spec fn seconds_opt_view(s: Option<Seconds>) -> Option<(Seq<char>, Seq<char>)> {
    match s {
        Some(x) => Some(x@),
        None => None,
    }
}

pub open spec fn params_opt_view(r: Option<PlayParams>) -> Option<PlayView> {
    match r {
        Some(p) => Some(p@),
        None => None,
    }
}

/// Position `i` of `s` holds the one decimal point of a decimal number.
pub open spec fn point_at(s: Seq<char>, i: int) -> bool {
    &&& 0 <= i < s.len()
    &&& s[i] == '.'
    &&& s.len() > 1
    &&& all_digits(s.take(i))
    &&& all_digits(s.skip(i + 1))
}

/// The whole and fractional digits of a resume offset written as `s`, or
/// `None` where `s` is no such number.
pub open spec fn seconds_of(s: Seq<char>) -> Option<(Seq<char>, Seq<char>)> {
    if s.len() > 0 && all_digits(s) {
        Some((s, Seq::empty()))
    } else if exists|i: int| point_at(s, i) {
        let i = choose|i: int| point_at(s, i);
        Some((s.take(i), s.skip(i + 1)))
    } else {
        None
    }
}

/// The value of the last pair whose key is `key`.
pub open spec fn last_value(q: QueryView, key: Seq<char>) -> Option<Seq<char>>
    decreases q.len(),
{
    if q.len() == 0 {
        None
    } else if q.last().0 == key {
        Some(q.last().1)
    } else {
        last_value(q.drop_last(), key)
    }
}

pub open spec fn title_or_default(t: Option<Seq<char>>) -> Seq<char> {
    match t {
        Some(t) => t,
        None => DEFAULT_TITLE@,
    }
}

pub open spec fn position_of(p: Option<Seq<char>>) -> Option<(Seq<char>, Seq<char>)> {
    match p {
        Some(p) => seconds_of(p),
        None => None,
    }
}

/// The playback request that a query describes: none without a non-empty `url`.
pub open spec fn query_params(q: QueryView) -> Option<PlayView> {
    match last_value(q, "url"@) {
        Some(u) => if u.len() > 0 {
            Some((u, title_or_default(last_value(q, "title"@)), position_of(last_value(q, "position"@))))
        } else {
            None
        },
        None => None,
    }
}

/// The link names the play action: as its host (`streamking://play`) or as
/// its path (`streamking:play`).
pub open spec fn names_play(host: Option<Seq<char>>, path: Seq<char>) -> bool {
    host == Some("play"@) || path == "play"@
}

/// The playback request of a parsed URI.
pub open spec fn uri_play_params(
    scheme: Seq<char>,
    host: Option<Seq<char>>,
    path: Seq<char>,
    q: QueryView,
) -> Option<PlayView> {
    if scheme == "streamking"@ && names_play(host, path) {
        query_params(q)
    } else {
        None
    }
}

/// The playback request of a link `s`.
pub open spec fn protocol_params(s: Seq<char>) -> Option<PlayView> {
    if SCHEME_PREFIX@.is_prefix_of(s) && uri_parses(s) {
        uri_play_params(uri_scheme(s), uri_host(s), uri_path(s), uri_query_pairs(s))
    } else {
        None
    }
}

fn is_digit_char(c: char) -> (r: bool)
    ensures
        r == is_digit(c),
{
    '0' <= c && c <= '9'
}

/// Reads a resume offset: digits, optionally followed by `.` and digits.
pub fn parse_seconds(s: &str) -> (r: Option<Seconds>)
    ensures
        seconds_opt_view(r) == seconds_of(s@),
{
    let n = s.unicode_len();
    let mut k: usize = 0;
    while k < n && is_digit_char(s.get_char(k))
        invariant
            n == s@.len(),
            k <= n,
            all_digits(s@.take(k as int)),
        decreases n - k,
    {
        assert(s@.take(k + 1) == s@.take(k as int).push(s@[k as int]));
        k = k + 1;
    }
    if k == n {
        assert(s@.take(k as int) == s@);
        if n == 0 {
            return None;
        }
        return Some(Seconds { whole: String::from_str(s), fraction: String::new() });
    }
    if s.get_char(k) != '.' {
        proof {
            assert forall|i: int| !point_at(s@, i) by {
                if point_at(s@, i) {
                    if i < k {
                        assert(s@.take(k as int)[i] == s@[i]);
                    } else if i > k {
                        assert(s@.take(i)[k as int] == s@[k as int]);
                    }
                }
            }
        }
        return None;
    }
    let mut j: usize = k + 1;
    while j < n
        invariant
            n == s@.len(),
            k < j <= n,
            s@[k as int] == '.',
            all_digits(s@.take(k as int)),
            all_digits(s@.subrange(k + 1, j as int)),
        decreases n - j,
    {
        if !is_digit_char(s.get_char(j)) {
            proof {
                assert forall|i: int| !point_at(s@, i) by {
                    if point_at(s@, i) {
                        if i < k {
                            assert(s@.take(k as int)[i] == s@[i]);
                        } else if i > k {
                            assert(s@.take(i)[k as int] == s@[k as int]);
                        } else {
                            assert(s@.skip(i + 1)[j - k - 1] == s@[j as int]);
                        }
                    }
                }
            }
            return None;
        }
        assert(s@.subrange(k + 1, j + 1) == s@.subrange(k + 1, j as int).push(s@[j as int]));
        j = j + 1;
    }
    assert(s@.subrange(k + 1, n as int) == s@.skip(k + 1));
    if n == 1 {
        assert(!point_at(s@, 0));
        return None;
    }
    proof {
        assert(point_at(s@, k as int));
        assert(!all_digits(s@)) by {
            assert(!is_digit(s@[k as int]));
        }
        assert forall|i: int| point_at(s@, i) implies i == k by {
            if i < k {
                assert(s@.take(k as int)[i] == s@[i]);
            } else if i > k {
                assert(s@.take(i)[k as int] == s@[k as int]);
            }
        }
    }
    let whole = String::from_str(s.substring_char(0, k));
    let fraction = String::from_str(s.substring_char(k + 1, n));
    assert(whole@ == s@.take(k as int));
    Some(Seconds { whole, fraction })
}

/// The value of the last pair of `q` whose key is `key`.
pub fn query_value(q: &Vec<(String, String)>, key: &str) -> (r: Option<String>)
    ensures
        r.deep_view() == last_value(q.deep_view(), key@),
{
    let ghost qv = q.deep_view();
    let mut i: usize = q.len();
    assert(qv.take(i as int) =~= qv);
    while i > 0
        invariant
            i <= q@.len(),
            qv == q.deep_view(),
            last_value(qv, key@) == last_value(qv.take(i as int), key@),
        decreases i,
    {
        let pair = &q[i - 1];
        proof {
            assert(qv.take(i as int).drop_last() == qv.take(i - 1));
            assert(qv.take(i as int).last() == qv[i - 1]);
        }
        if same_text(pair.0.as_str(), key) {
            return Some(pair.1.clone());
        }
        i = i - 1;
    }
    None
}

/// The playback request of a parsed URI, or `None` where the URI is not a
/// `streamking` play link with a non-empty `url`.
pub fn play_params_from_uri(parts: &UriParts) -> (r: Option<PlayParams>)
    ensures
        params_opt_view(r) == uri_play_params(
            parts.scheme@,
            parts.host.deep_view(),
            parts.path@,
            parts.query.deep_view(),
        ),
{
    if !same_text(parts.scheme.as_str(), "streamking") {
        return None;
    }
    let by_host = match &parts.host {
        Some(h) => same_text(h.as_str(), "play"),
        None => false,
    };
    if !by_host && !same_text(parts.path.as_str(), "play") {
        return None;
    }
    let url = match query_value(&parts.query, "url") {
        Some(u) => u,
        None => return None,
    };
    if url.unicode_len() == 0 {
        return None;
    }
    let title = match query_value(&parts.query, "title") {
        Some(t) => t,
        None => String::from_str(DEFAULT_TITLE),
    };
    let start_position = match query_value(&parts.query, "position") {
        Some(p) => parse_seconds(p.as_str()),
        None => None,
    };
    Some(PlayParams { url, title, start_position })
}

/// Whether `s` starts with `prefix`.
pub fn starts_with_text(s: &str, prefix: &str) -> (r: bool)
    ensures
        r == prefix@.is_prefix_of(s@),
{
    let n = prefix.unicode_len();
    if n > s.unicode_len() {
        return false;
    }
    same_text(s.substring_char(0, n), prefix)
}

/// Parses a deep link into a playback request.
pub fn parse_protocol_url(url_str: &str) -> (r: Option<PlayParams>)
    ensures
        params_opt_view(r) == protocol_params(url_str@),
{
    if !starts_with_text(url_str, SCHEME_PREFIX) {
        return None;
    }
    match split_uri(url_str) {
        Some(parts) => play_params_from_uri(&parts),
        None => None,
    }
}

/// A key that no pair of `q` has gives no value.
pub proof fn lemma_absent_key(q: QueryView, key: Seq<char>)
    requires
        forall|i: int| 0 <= i < q.len() ==> (#[trigger] q[i]).0 != key,
    ensures
        last_value(q, key) is None,
    decreases q.len(),
{
    if q.len() > 0 {
        assert(q.last() == q[q.len() - 1]);
        assert forall|i: int| 0 <= i < q.drop_last().len() implies (#[trigger] q.drop_last()[i]).0 != key by {
            assert(q.drop_last()[i] == q[i]);
        }
        lemma_absent_key(q.drop_last(), key);
    }
}

/// A text that does not start with the `streamking:` scheme is no link.
pub proof fn lemma_other_scheme_rejected(s: Seq<char>)
    requires
        !SCHEME_PREFIX@.is_prefix_of(s),
    ensures
        protocol_params(s) is None,
{
}

/// A play link whose query decodes to `url=u&title=t` requests `u` under the
/// title `t`, with no resume offset.
pub proof fn lemma_url_and_title(host: Option<Seq<char>>, path: Seq<char>, u: Seq<char>, t: Seq<char>)
    requires
        names_play(host, path),
        u.len() > 0,
    ensures
        uri_play_params("streamking"@, host, path, seq![("url"@, u), ("title"@, t)])
            == Some((u, t, None::<(Seq<char>, Seq<char>)>)),
{
    reveal_strlit("url");
    reveal_strlit("title");
    reveal_strlit("position");
    reveal_with_fuel(last_value, 3);
    let q = seq![("url"@, u), ("title"@, t)];
    assert(q.drop_last().drop_last() =~= Seq::<(Seq<char>, Seq<char>)>::empty());
    assert(q.drop_last() =~= seq![("url"@, u)]);
    assert(q.last().0 != "url"@) by { assert(q.last().0.len() != ("url"@).len()); }
    assert(q.drop_last().last().0 == "url"@);
    assert(last_value(q, "url"@) == Some(u));
    assert(q.last().0 != "position"@) by { assert(q.last().0.len() != ("position"@).len()); }
    assert(q.drop_last().last().0 != "position"@) by {
        assert(q.drop_last().last().0.len() != ("position"@).len());
    }
    assert(last_value(q, "position"@) is None);
}

/// Without a `title` pair the title is the default one.
pub proof fn lemma_default_title(q: QueryView)
    requires
        query_params(q) is Some,
        forall|i: int| 0 <= i < q.len() ==> (#[trigger] q[i]).0 != "title"@,
    ensures
        query_params(q)->Some_0.1 == DEFAULT_TITLE@,
{
    lemma_absent_key(q, "title"@);
}

/// Without a `url` pair there is no request, whatever else the query holds.
pub proof fn lemma_url_required(q: QueryView)
    requires
        forall|i: int| 0 <= i < q.len() ==> (#[trigger] q[i]).0 != "url"@,
    ensures
        query_params(q) is None,
{
    lemma_absent_key(q, "url"@);
}

/// A `position` that is no number leaves the request standing, without a
/// resume offset.
pub proof fn lemma_bad_position_ignored(q: QueryView)
    requires
        last_value(q, "url"@) matches Some(u) && u.len() > 0,
        last_value(q, "position"@) matches Some(p) && seconds_of(p) is None,
    ensures
        query_params(q) is Some,
        query_params(q)->Some_0.2 is None,
{
}

/// An offset written as `w.f` reads back as its whole digits `w` and its
/// fractional digits `f`.
pub proof fn lemma_seconds_round_trip(w: Seq<char>, f: Seq<char>)
    requires
        all_digits(w),
        all_digits(f),
        w.len() + f.len() > 0,
    ensures
        seconds_of(w + seq!['.'] + f) == Some((w, f)),
{
    let s = w + seq!['.'] + f;
    let k = w.len() as int;
    assert(s[k] == '.');
    assert(s.take(k) =~= w);
    assert(s.skip(k + 1) =~= f);
    assert(point_at(s, k));
    assert(!all_digits(s)) by {
        assert(!is_digit(s[k]));
    }
    assert forall|i: int| point_at(s, i) implies i == k by {
        if i < k {
            assert(s[i] == w[i]);
        } else if i > k {
            assert(s.take(i)[k] == s[k]);
        }
    }
}

/// An offset of whole seconds reads back as those digits.
pub proof fn lemma_whole_seconds(w: Seq<char>)
    requires
        all_digits(w),
        w.len() > 0,
    ensures
        seconds_of(w) == Some((w, Seq::<char>::empty())),
{
}

/// `streamking://play?Q` and `streamking:play?Q` give the same request.
pub proof fn lemma_both_shapes_agree(host_path: Seq<char>, path_host: Option<Seq<char>>, q: QueryView)
    ensures
        uri_play_params("streamking"@, Some("play"@), host_path, q)
            == uri_play_params("streamking"@, path_host, "play"@, q),
{
}

} // verus!
