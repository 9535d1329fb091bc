//! Query parameters of a request and their URL encoding.
use vstd::prelude::*;

verus! {

/// Whether `c` passes through form encoding unchanged: an ASCII letter or
/// digit, or one of `*`, `-`, `.`, `_`.
pub open spec fn is_form_safe_char(c: char) -> bool {
    let u = c as u32;
    u == 42 || u == 45 || u == 46 || u == 95 || (48 <= u && u <= 57) || (65 <= u && u <= 90)
        || (97 <= u && u <= 122)
}

/// Whether every character of `s` passes through form encoding unchanged.
pub open spec fn form_safe(s: Seq<char>) -> bool {
    forall|i: int| 0 <= i < s.len() ==> is_form_safe_char(#[trigger] s[i])
}

/// The `application/x-www-form-urlencoded` form of a text, for texts that
/// need escaping.
pub uninterp spec fn form_escaped(s: Seq<char>) -> Seq<char>;

/// The encoded form of a text: unchanged when every character is safe,
/// escaped otherwise.
pub open spec fn escape_text(s: Seq<char>) -> Seq<char> {
    if form_safe(s) {
        s
    } else {
        form_escaped(s)
    }
}

/// Relies on form_urlencoded::byte_serialize: the encoded form depends on the
/// text alone, and bytes of ASCII letters, digits and `*-._` pass unchanged.
#[verifier::external_body]
fn form_escape(s: &str) -> (r: String)
    ensures
        r@ == form_escaped(s@),
        form_safe(s@) ==> r@ == s@,
{
    form_urlencoded::byte_serialize(s.as_bytes()).collect()
}

/// One encoded pair, `key=value`.
pub open spec fn encode_pair(p: (Seq<char>, Seq<char>)) -> Seq<char> {
    escape_text(p.0) + seq!['='] + escape_text(p.1)
}

/// The encoded pairs, in order, joined by `&`.
pub open spec fn encode_pairs(ps: Seq<(Seq<char>, Seq<char>)>) -> Seq<char>
    decreases ps.len(),
{
    if ps.len() == 0 {
        seq![]
    } else if ps.len() == 1 {
        encode_pair(ps[0])
    } else {
        encode_pairs(ps.drop_last()) + seq!['&'] + encode_pair(ps.last())
    }
}

/// The URL text `url` with its query replaced by `query`, as the url crate
/// parses the URL and sets its query; `None` where the URL does not parse.
pub uninterp spec fn url_with_query(url: Seq<char>, query: Seq<char>) -> Option<Seq<char>>;

/// Relies on url::Url::set_query, after url::Url::parse of the URL: the
/// outcome depends on the two texts alone.
#[verifier::external_body]
fn set_url_query(url: &str, query: &str) -> (r: Result<String, url::ParseError>)
    ensures
        match r {
            Ok(u) => url_with_query(url@, query@) == Some(u@),
            Err(_) => url_with_query(url@, query@) is None,
        },
{
    let mut parsed = url::Url::parse(url)?;
    parsed.set_query(Some(query));
    Ok(String::from(parsed))
}

/// A URL with an encoded query string set: an empty one leaves the URL as
/// it is, any other replaces the URL's query; `None` where the URL does not
/// parse.
pub open spec fn with_query(url: Seq<char>, query: Seq<char>) -> Option<Seq<char>> {
    if query.len() == 0 {
        Some(url)
    } else {
        url_with_query(url, query)
    }
}

/// The index of the last `c` in `s`, or -1.
pub open spec fn last_index_of(s: Seq<char>, c: char) -> int
    decreases s.len(),
{
    if s.len() == 0 {
        -1
    } else if s.last() == c {
        s.len() - 1
    } else {
        last_index_of(s.drop_last(), c)
    }
}

/// The index of the first `c` in `s`, or -1.
pub open spec fn first_index_of(s: Seq<char>, c: char) -> int
    decreases s.len(),
{
    if s.len() == 0 {
        -1
    } else if s[0] == c {
        0
    } else {
        let r = first_index_of(s.drop_first(), c);
        if r < 0 {
            -1
        } else {
            r + 1
        }
    }
}

/// Reads one `key=value` pair that needs no unescaping.
pub open spec fn decode_pair(s: Seq<char>) -> (Seq<char>, Seq<char>) {
    let i = first_index_of(s, '=');
    if 0 <= i < s.len() {
        (s.subrange(0, i), s.subrange(i + 1, s.len() as int))
    } else {
        (s, seq![])
    }
}

/// Reads a query string whose keys and values need no unescaping.
pub open spec fn decode_pairs(s: Seq<char>) -> Seq<(Seq<char>, Seq<char>)>
    decreases s.len(),
{
    if s.len() == 0 {
        seq![]
    } else {
        let i = last_index_of(s, '&');
        if 0 <= i < s.len() {
            decode_pairs(s.subrange(0, i)).push(decode_pair(s.subrange(i + 1, s.len() as int)))
        } else {
            seq![decode_pair(s)]
        }
    }
}

/// Whether `c` occurs in `s`.
pub open spec fn holds_char(s: Seq<char>, c: char) -> bool {
    exists|i: int| 0 <= i < s.len() && s[i] == c
}

proof fn lemma_last_index_absent(s: Seq<char>, c: char)
    requires
        !holds_char(s, c),
    ensures
        last_index_of(s, c) == -1,
    decreases s.len(),
{
    if s.len() > 0 {
        assert(s.last() == s[s.len() - 1]);
        assert forall|i: int| 0 <= i < s.drop_last().len() implies s.drop_last()[i] != c by {
            assert(s.drop_last()[i] == s[i]);
        }
        lemma_last_index_absent(s.drop_last(), c);
    }
}

proof fn lemma_last_index_split(a: Seq<char>, b: Seq<char>, c: char)
    requires
        !holds_char(b, c),
    ensures
        last_index_of(a + seq![c] + b, c) == a.len(),
    decreases b.len(),
{
    let s = a + seq![c] + b;
    if b.len() == 0 {
        assert(s.last() == c);
    } else {
        assert(s.last() == b[b.len() - 1]);
        assert(s.drop_last() =~= a + seq![c] + b.drop_last());
        assert forall|i: int| 0 <= i < b.drop_last().len() implies b.drop_last()[i] != c by {
            assert(b.drop_last()[i] == b[i]);
        }
        lemma_last_index_split(a, b.drop_last(), c);
    }
}

proof fn lemma_first_index_split(a: Seq<char>, b: Seq<char>, c: char)
    requires
        !holds_char(a, c),
    ensures
        first_index_of(a + seq![c] + b, c) == a.len(),
    decreases a.len(),
{
    let s = a + seq![c] + b;
    if a.len() == 0 {
        assert(s[0] == c);
    } else {
        assert(s[0] == a[0]);
        assert(s.drop_first() =~= a.drop_first() + seq![c] + b);
        assert forall|i: int| 0 <= i < a.drop_first().len() implies a.drop_first()[i] != c by {
            assert(a.drop_first()[i] == a[i + 1]);
        }
        lemma_first_index_split(a.drop_first(), b, c);
    }
}

proof fn lemma_safe_lacks(s: Seq<char>, c: char)
    requires
        form_safe(s),
        !is_form_safe_char(c),
    ensures
        !holds_char(s, c),
{
    assert forall|i: int| 0 <= i < s.len() implies s[i] != c by {
        assert(is_form_safe_char(s[i]));
    }
}

proof fn lemma_pair_round_trip(p: (Seq<char>, Seq<char>))
    requires
        form_safe(p.0),
        form_safe(p.1),
    ensures
        decode_pair(encode_pair(p)) == p,
        !holds_char(encode_pair(p), '&'),
        encode_pair(p).len() > 0,
{
    let s = encode_pair(p);
    assert(s == p.0 + seq!['='] + p.1);
    assert(!is_form_safe_char('=')) by {
        assert(('=' as u32) == 61);
    }
    assert(!is_form_safe_char('&')) by {
        assert(('&' as u32) == 38);
    }
    lemma_safe_lacks(p.0, '=');
    lemma_first_index_split(p.0, p.1, '=');
    assert(s.subrange(0, p.0.len() as int) =~= p.0);
    assert(s.subrange(p.0.len() + 1 as int, s.len() as int) =~= p.1);
    lemma_safe_lacks(p.0, '&');
    lemma_safe_lacks(p.1, '&');
    assert forall|i: int| 0 <= i < s.len() implies s[i] != '&' by {
        if i < p.0.len() {
            assert(s[i] == p.0[i]);
        } else if i > p.0.len() {
            assert(s[i] == p.1[i - p.0.len() - 1]);
        }
    }
}

/// Reading back an encoded list of pairs gives the same pairs, in the same
/// order, when no key or value needs escaping.
pub proof fn lemma_query_round_trip(ps: Seq<(Seq<char>, Seq<char>)>)
    requires
        forall|i: int| 0 <= i < ps.len() ==> form_safe(#[trigger] ps[i].0) && form_safe(ps[i].1),
    ensures
        decode_pairs(encode_pairs(ps)) == ps,
    decreases ps.len(),
{
    if ps.len() == 1 {
        let s = encode_pair(ps[0]);
        lemma_pair_round_trip(ps[0]);
        lemma_last_index_absent(s, '&');
        assert(decode_pairs(s) == seq![decode_pair(s)]);
        assert(decode_pairs(encode_pairs(ps)) =~= ps);
    } else if ps.len() > 1 {
        let front = ps.drop_last();
        let e = encode_pairs(front);
        let p = encode_pair(ps.last());
        let s = e + seq!['&'] + p;
        assert(ps.last() == ps[ps.len() - 1]);
        lemma_pair_round_trip(ps.last());
        assert forall|i: int| 0 <= i < front.len() implies form_safe(#[trigger] front[i].0)
            && form_safe(front[i].1) by {
            assert(front[i] == ps[i]);
        }
        lemma_query_round_trip(front);
        lemma_last_index_split(e, p, '&');
        assert(s.subrange(0, e.len() as int) =~= e);
        assert(s.subrange(e.len() + 1 as int, s.len() as int) =~= p);
        assert(decode_pairs(s) == decode_pairs(e).push(decode_pair(p)));
        assert(decode_pairs(encode_pairs(ps)) =~= ps);
    } else {
        assert(decode_pairs(encode_pairs(ps)) =~= ps);
    }
}

/// Query parameters: key and value pairs in the order they were added.
#[derive(Debug, Clone)]
pub struct QueryParams {
    pairs: Vec<(String, String)>,
}

impl View for QueryParams {
    type V = Seq<(Seq<char>, Seq<char>)>;

    closed spec fn view(&self) -> Seq<(Seq<char>, Seq<char>)> {
        self.pairs@.map_values(|p: (String, String)| (p.0@, p.1@))
    }
}

impl Default for QueryParams {
    fn default() -> (r: Self)
        ensures
            r@ == Seq::<(Seq<char>, Seq<char>)>::empty(),
    {
        QueryParams::new()
    }
}

impl QueryParams {
    /// No parameters.
    pub fn new() -> (r: Self)
        ensures
            r@ == Seq::<(Seq<char>, Seq<char>)>::empty(),
    {
        let r = QueryParams { pairs: Vec::new() };
        assert(r@ =~= Seq::<(Seq<char>, Seq<char>)>::empty());
        r
    }

    /// Removes every parameter.
    pub fn clear(&mut self)
        ensures
            final(self)@ == Seq::<(Seq<char>, Seq<char>)>::empty(),
    {
        self.pairs.clear();
        assert(self@ =~= Seq::<(Seq<char>, Seq<char>)>::empty());
    }

    /// Adds one pair after the others.
    pub fn append_pair(&mut self, key: &str, value: &str)
        ensures
            final(self)@ == old(self)@.push((key@, value@)),
    {
        self.pairs.push((String::from_str(key), String::from_str(value)));
        assert(self@ =~= old(self)@.push((key@, value@)));
    }

    /// Adds the given pairs after the others, in their order.
    pub fn extend_pairs(&mut self, pairs: &Vec<(String, String)>)
        ensures
            final(self)@ == old(self)@ + pairs@.map_values(|p: (String, String)| (p.0@, p.1@)),
    {
        let ghost added = pairs@.map_values(|p: (String, String)| (p.0@, p.1@));
        let mut i: usize = 0;
        while i < pairs.len()
            invariant
                0 <= i <= pairs.len(),
                added == pairs@.map_values(|p: (String, String)| (p.0@, p.1@)),
                self@ == old(self)@ + added.subrange(0, i as int),
            decreases pairs.len() - i,
        {
            let ghost before = self@;
            let k = pairs[i].0.clone();
            let v = pairs[i].1.clone();
            self.pairs.push((k, v));
            assert(self@ =~= before.push(added[i as int]));
            assert(added.subrange(0, i + 1) =~= added.subrange(0, i as int).push(added[i as int]));
            i += 1;
        }
        assert(added.subrange(0, i as int) =~= added);
    }

    /// Adds the pairs of `other` after these, in their order.
    pub fn extend_from(&mut self, other: &QueryParams)
        ensures
            final(self)@ == old(self)@ + other@,
    {
        self.extend_pairs(&other.pairs);
    }

    /// The pairs of `first` followed by those of `second`.
    pub fn with(first: QueryParams, second: &QueryParams) -> (r: QueryParams)
        ensures
            r@ == first@ + second@,
    {
        let mut out = first;
        out.extend_from(second);
        out
    }

    /// The encoded query string: each pair as `key=value`, form-encoded,
    /// joined by `&`.
    pub fn finish(self) -> (r: String)
        ensures
            r@ == encode_pairs(self@),
    {
        let mut out = String::new();
        let mut i: usize = 0;
        while i < self.pairs.len()
            invariant
                0 <= i <= self.pairs.len(),
                self@.len() == self.pairs@.len(),
                out@ == encode_pairs(self@.subrange(0, i as int)),
            decreases self.pairs.len() - i,
        {
            let ghost before = out@;
            proof {
                reveal_strlit("&");
                reveal_strlit("=");
                assert("&"@ =~= seq!['&']);
                assert("="@ =~= seq!['=']);
            }
            if i > 0 {
                out.append("&");
            }
            let ghost mid = out@;
            let k = form_escape(self.pairs[i].0.as_str());
            let v = form_escape(self.pairs[i].1.as_str());
            out.append(k.as_str());
            out.append("=");
            out.append(v.as_str());
            proof {
                let sub = self@.subrange(0, i + 1);
                assert(sub.drop_last() =~= self@.subrange(0, i as int));
                assert(sub.last() == self@[i as int]);
                assert(self@[i as int] == (self.pairs@[i as int].0@, self.pairs@[i as int].1@));
                assert(k@ == escape_text(self.pairs@[i as int].0@));
                assert(v@ == escape_text(self.pairs@[i as int].1@));
                assert(encode_pair(sub.last()) == k@ + seq!['='] + v@);
                assert(out@ =~= mid + encode_pair(sub.last()));
                if i == 0 {
                    assert(before =~= seq![]);
                    assert(out@ =~= encode_pair(sub[0]));
                } else {
                    assert(out@ =~= before + seq!['&'] + encode_pair(sub.last()));
                }
            }
            i += 1;
        }
        assert(self@.subrange(0, i as int) =~= self@);
        out
    }

    /// Sets the encoded query string as the query of `url`, replacing any
    /// query it had; an empty one leaves `url` as it is, without a bare `?`.
    pub fn apply_to(self, url: &mut String) -> (r: Result<(), url::ParseError>)
        ensures
            match with_query(old(url)@, encode_pairs(self@)) {
                Some(u) => r is Ok && final(url)@ == u,
                None => r is Err && final(url)@ == old(url)@,
            },
    {
        let query = self.finish();
        if query.as_str().is_empty() {
            return Ok(());
        }
        match set_url_query(url.as_str(), query.as_str()) {
            Ok(u) => {
                *url = u;
                Ok(())
            },
            Err(e) => Err(e),
        }
    }
}

} // verus!

verus! {

/// The text of a boolean in a query string.
pub open spec fn bool_text(b: bool) -> Seq<char> {
    if b {
        "true"@
    } else {
        "false"@
    }
}

/// The text of a boolean in a query string.
pub fn bool_str(b: bool) -> (r: &'static str)
    ensures
        r@ == bool_text(b),
{
    if b {
        "true"
    } else {
        "false"
    }
}

/// Reads back the text of a boolean.
pub open spec fn parse_bool_text(t: Seq<char>) -> Option<bool> {
    if t == "true"@ {
        Some(true)
    } else if t == "false"@ {
        Some(false)
    } else {
        None
    }
}

/// Whether some pair of `ps` has the key `key`.
pub open spec fn has_key(ps: Seq<(Seq<char>, Seq<char>)>, key: Seq<char>) -> bool {
    exists|i: int| 0 <= i < ps.len() && (#[trigger] ps[i]).0 == key
}

/// The pair `(key, value)` when a value is present, nothing otherwise.
pub open spec fn opt_pair(key: Seq<char>, value: Option<Seq<char>>) -> Seq<(Seq<char>, Seq<char>)> {
    match value {
        Some(v) => seq![(key, v)],
        None => seq![],
    }
}

} // verus!
