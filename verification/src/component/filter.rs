//! The nested filter menu: one level of drill-down inside a trigger
//! button's popup, and the query-string computation behind each
//! redirecting leaf.

use vstd::prelude::*;

use crate::util::find_from;
use crate::util::lemma_find_from_hits;
use crate::util::lemma_find_from_props;
use crate::util::scan_char;

verus! {

// ---------------------------------------------------------------------
// Query-string computation
// ---------------------------------------------------------------------

/// The key/value views of a parameter vector.
pub open spec fn qpairs_view(v: Seq<(String, String)>) -> Seq<(Seq<char>, Seq<char>)> {
    v.map_values(|p: (String, String)| (p.0@, p.1@))
}

/// Pushing a pair onto the vector pushes its views.
proof fn lemma_qpairs_push(v: Seq<(String, String)>, x: (String, String))
    ensures
        qpairs_view(v.push(x)) == qpairs_view(v).push((x.0@, x.1@)),
{
    assert forall|k: int| 0 <= k < v.len() + 1 implies #[trigger] qpairs_view(v.push(x))[k]
        == qpairs_view(v).push((x.0@, x.1@))[k] by {
        if k < v.len() {
            assert(v.push(x)[k] == v[k]);
        } else {
            assert(v.push(x)[k] == x);
        }
    }
    assert(qpairs_view(v.push(x)) =~= qpairs_view(v).push((x.0@, x.1@)));
}

/// Split one `key=value` segment at its first `=`; a segment without `=`
/// is a key with an empty value.
pub open spec fn pair_of(seg: Seq<char>) -> (Seq<char>, Seq<char>) {
    let j = find_from(seg, '=', 0);
    if j < seg.len() {
        (seg.subrange(0, j), seg.subrange(j + 1, seg.len() as int))
    } else {
        (seg, Seq::empty())
    }
}

/// Parse a query string from `pos` on: `&`-separated segments, empty
/// segments skipped.
pub open spec fn parse_from(q: Seq<char>, pos: int) -> Seq<(Seq<char>, Seq<char>)>
    decreases q.len() - pos,
    via parse_from_decreases
{
    if pos < 0 || pos >= q.len() {
        Seq::empty()
    } else {
        let a = find_from(q, '&', pos);
        if a == pos {
            parse_from(q, pos + 1)
        } else if a >= q.len() {
            seq![pair_of(q.subrange(pos, q.len() as int))]
        } else {
            seq![pair_of(q.subrange(pos, a))] + parse_from(q, a + 1)
        }
    }
}

#[via_fn]
proof fn parse_from_decreases(q: Seq<char>, pos: int) {
    if 0 <= pos < q.len() {
        crate::util::lemma_find_from_props(q, '&', pos);
    }
}

/// One serialized `key=value` segment.
pub open spec fn seg_of(p: (Seq<char>, Seq<char>)) -> Seq<char> {
    p.0 + seq!['='] + p.1
}

/// Parameters serialized back to a query string, `&`-joined.
pub open spec fn serialize_params(ps: Seq<(Seq<char>, Seq<char>)>) -> Seq<char>
    decreases ps.len(),
{
    if ps.len() == 0 {
        Seq::empty()
    } else if ps.len() == 1 {
        seg_of(ps[0])
    } else {
        serialize_params(ps.drop_last()) + seq!['&'] + seg_of(ps.last())
    }
}

/// The position of the first parameter with key `k` at or after `pos`,
/// or the length when there is none.
pub open spec fn first_key_from(ps: Seq<(Seq<char>, Seq<char>)>, k: Seq<char>, pos: int) -> int
    decreases ps.len() - pos,
{
    if pos < 0 || pos >= ps.len() {
        ps.len() as int
    } else if ps[pos].0 == k {
        pos
    } else {
        first_key_from(ps, k, pos + 1)
    }
}

/// All parameters whose key is not `k`, in order.
pub open spec fn filter_out_key(ps: Seq<(Seq<char>, Seq<char>)>, k: Seq<char>) -> Seq<
    (Seq<char>, Seq<char>),
>
    decreases ps.len(),
{
    if ps.len() == 0 {
        Seq::empty()
    } else {
        let rest = filter_out_key(ps.drop_last(), k);
        if ps.last().0 == k {
            rest
        } else {
            rest.push(ps.last())
        }
    }
}

/// Set a parameter the way the browser's search-params `set` does: the
/// first occurrence of the key takes the new value and later occurrences
/// drop; a missing key is appended at the end.
pub open spec fn set_param(ps: Seq<(Seq<char>, Seq<char>)>, k: Seq<char>, v: Seq<char>) -> Seq<
    (Seq<char>, Seq<char>),
> {
    let i = first_key_from(ps, k, 0);
    if i < ps.len() {
        ps.subrange(0, i).push((k, v)) + filter_out_key(ps.subrange(i + 1, ps.len() as int), k)
    } else {
        ps.push((k, v))
    }
}

/// Nothing before the found position carries the key, and the found
/// position does.
proof fn lemma_first_key_props(ps: Seq<(Seq<char>, Seq<char>)>, k: Seq<char>, pos: int)
    requires
        0 <= pos <= ps.len(),
    ensures
        pos <= first_key_from(ps, k, pos) <= ps.len(),
        first_key_from(ps, k, pos) < ps.len() ==> ps[first_key_from(ps, k, pos)].0 == k,
        forall|j: int| pos <= j < first_key_from(ps, k, pos) ==> ps[j].0 != k,
    decreases ps.len() - pos,
{
    if pos < ps.len() && ps[pos].0 != k {
        lemma_first_key_props(ps, k, pos + 1);
    }
}

/// Filtering a key out leaves no parameter with that key.
proof fn lemma_filter_out_key_clean(ps: Seq<(Seq<char>, Seq<char>)>, k: Seq<char>)
    ensures
        forall|j: int|
            0 <= j < filter_out_key(ps, k).len() ==> (#[trigger] filter_out_key(ps, k)[j]).0 != k,
    decreases ps.len(),
{
    if ps.len() > 0 {
        lemma_filter_out_key_clean(ps.drop_last(), k);
        let rest = filter_out_key(ps.drop_last(), k);
        if ps.last().0 != k {
            let out = rest.push(ps.last());
            assert forall|j: int| 0 <= j < out.len() implies (#[trigger] out[j]).0 != k by {
                if j < rest.len() {
                    assert(out[j] == rest[j]);
                } else {
                    assert(out[j] == ps.last());
                }
            }
        }
    }
}

/// Setting a parameter behaves like the browser's search-params `set`:
/// afterwards the key occurs exactly once, at its first old position or
/// appended at the end, and carries the new value.
pub proof fn lemma_set_param_semantics(ps: Seq<(Seq<char>, Seq<char>)>, k: Seq<char>, v: Seq<char>)
    ensures
        ({
            let out = set_param(ps, k, v);
            let i = first_key_from(ps, k, 0);
            &&& (i < ps.len() ==> out[i] == (k, v) && out.len() <= ps.len())
            &&& (i >= ps.len() ==> out == ps.push((k, v)))
            &&& exists|j: int| 0 <= j < out.len() && (#[trigger] out[j]) == (k, v)
            &&& forall|j: int| 0 <= j < out.len() && (#[trigger] out[j]).0 == k ==> out[j] == (
                k,
                v,
            )
        }),
{
    let out = set_param(ps, k, v);
    let i = first_key_from(ps, k, 0);
    lemma_first_key_props(ps, k, 0);
    if i < ps.len() {
        let filtered = filter_out_key(ps.subrange(i + 1, ps.len() as int), k);
        lemma_filter_out_key_clean(ps.subrange(i + 1, ps.len() as int), k);
        lemma_filter_out_key_len(ps.subrange(i + 1, ps.len() as int), k);
        assert(out[i] == (k, v));
        assert(forall|j: int| 0 <= j < i ==> (#[trigger] out[j]) == ps[j] && out[j].0 != k);
        assert(forall|j: int|
            i < j < out.len() ==> (#[trigger] out[j]) == filtered[j - i - 1] && out[j].0 != k);
    } else {
        assert(out[ps.len() as int] == (k, v));
        assert(forall|j: int| 0 <= j < ps.len() ==> (#[trigger] out[j]) == ps[j]);
    }
}

/// Filtering a key out never lengthens the list.
proof fn lemma_filter_out_key_len(ps: Seq<(Seq<char>, Seq<char>)>, k: Seq<char>)
    ensures
        filter_out_key(ps, k).len() <= ps.len(),
    decreases ps.len(),
{
    if ps.len() > 0 {
        lemma_filter_out_key_len(ps.drop_last(), k);
    }
}

/// A parameter the query syntax can carry losslessly: no separator in
/// the key, none in the value, and no `=` in the key.
pub open spec fn wf_pair(p: (Seq<char>, Seq<char>)) -> bool {
    &&& forall|k: int| 0 <= k < p.0.len() ==> p.0[k] != '&' && (#[trigger] p.0[k]) != '='
    &&& forall|k: int| 0 <= k < p.1.len() ==> (#[trigger] p.1[k]) != '&'
}

/// Every parameter of the list is carried losslessly.
pub open spec fn wf_pairs(ps: Seq<(Seq<char>, Seq<char>)>) -> bool {
    forall|i: int| 0 <= i < ps.len() ==> wf_pair(#[trigger] ps[i])
}

/// A well-formed parameter survives its own segment.
proof fn lemma_pair_of_seg(p: (Seq<char>, Seq<char>))
    requires
        wf_pair(p),
    ensures
        pair_of(seg_of(p)) == p,
        forall|k: int| 0 <= k < seg_of(p).len() ==> (#[trigger] seg_of(p)[k]) != '&',
        seg_of(p).len() >= 1,
{
    let s = seg_of(p);
    let sep = p.0.len() as int;
    assert(s[sep] == '=');
    assert(forall|k: int| 0 <= k < sep ==> s[k] == p.0[k]);
    lemma_find_from_hits(s, '=', 0, sep);
    assert(s.subrange(0, sep) =~= p.0);
    assert(s.subrange(sep + 1, s.len() as int) =~= p.1);
    assert(forall|k: int| sep < k < s.len() ==> s[k] == p.1[k - sep - 1]);
}

/// Searching a concatenation past the first part searches the second.
proof fn lemma_find_from_shift(a: Seq<char>, b: Seq<char>, c: char, k: int)
    requires
        0 <= k <= b.len(),
    ensures
        find_from(a + b, c, a.len() + k) == a.len() + find_from(b, c, k),
    decreases b.len() - k,
{
    let s = a + b;
    if k < b.len() {
        assert(s[a.len() + k] == b[k]);
        if b[k] != c {
            lemma_find_from_shift(a, b, c, k + 1);
        }
    }
}

/// Parsing a concatenation past the first part parses the second.
proof fn lemma_parse_from_shift(a: Seq<char>, b: Seq<char>, k: int)
    requires
        0 <= k <= b.len(),
    ensures
        parse_from(a + b, a.len() + k) == parse_from(b, k),
    decreases b.len() - k,
{
    let s = a + b;
    let p = a.len() + k;
    if k < b.len() {
        lemma_find_from_shift(a, b, '&', k);
        lemma_find_from_props(b, '&', k);
        let ab = find_from(b, '&', k);
        if ab == k {
            lemma_parse_from_shift(a, b, k + 1);
        } else if ab >= b.len() {
            assert(s.subrange(p, s.len() as int) =~= b.subrange(k, b.len() as int));
        } else {
            assert(s.subrange(p, a.len() + ab) =~= b.subrange(k, ab));
            lemma_parse_from_shift(a, b, ab + 1);
        }
    }
}

/// Serialization peels from the front too: the first segment, one
/// separator, then the rest.
proof fn lemma_serialize_front(ps: Seq<(Seq<char>, Seq<char>)>)
    requires
        ps.len() >= 2,
    ensures
        serialize_params(ps) == seg_of(ps[0]) + seq!['&'] + serialize_params(
            ps.subrange(1, ps.len() as int),
        ),
    decreases ps.len(),
{
    let rest = ps.subrange(1, ps.len() as int);
    if ps.len() == 2 {
        assert(ps.drop_last() =~= seq![ps[0]]);
        assert(serialize_params(seq![ps[0]]) == seg_of(ps[0]));
        assert(rest =~= seq![ps[1]]);
        assert(serialize_params(rest) == seg_of(ps[1]));
    } else {
        let shorter = ps.drop_last();
        lemma_serialize_front(shorter);
        assert(shorter.subrange(1, shorter.len() as int) =~= rest.drop_last());
        assert(rest.last() == ps.last());
        assert(serialize_params(rest) == serialize_params(rest.drop_last()) + seq!['&'] + seg_of(
            ps.last(),
        ));
        assert((seg_of(ps[0]) + seq!['&'] + serialize_params(rest.drop_last())) + seq!['&']
            + seg_of(ps.last()) =~= seg_of(ps[0]) + seq!['&'] + serialize_params(rest));
    }
}

/// Serializing well-formed parameters and parsing the text back yields
/// exactly the parameters again: the query syntax is a faithful round
/// trip.
pub proof fn lemma_query_round_trip(ps: Seq<(Seq<char>, Seq<char>)>)
    requires
        wf_pairs(ps),
    ensures
        parse_from(serialize_params(ps), 0) == ps,
    decreases ps.len(),
{
    if ps.len() == 0 {
        assert(parse_from(serialize_params(ps), 0) =~= ps);
    } else if ps.len() == 1 {
        let s = serialize_params(ps);
        assert(s == seg_of(ps[0]));
        lemma_pair_of_seg(ps[0]);
        lemma_find_from_props(s, '&', 0);
        assert(find_from(s, '&', 0) == s.len());
        assert(s.subrange(0, s.len() as int) =~= s);
        assert(parse_from(s, 0) =~= ps);
    } else {
        let rest = ps.subrange(1, ps.len() as int);
        lemma_serialize_front(ps);
        lemma_pair_of_seg(ps[0]);
        let seg0 = seg_of(ps[0]);
        let front = seg0 + seq!['&'];
        let back = serialize_params(rest);
        let s = serialize_params(ps);
        assert(s =~= front + back);
        assert(s[seg0.len() as int] == '&');
        assert(forall|k: int| 0 <= k < seg0.len() ==> s[k] == seg0[k]);
        lemma_find_from_hits(s, '&', 0, seg0.len() as int);
        assert(s.subrange(0, seg0.len() as int) =~= seg0);
        lemma_parse_from_shift(front, back, 0);
        assert(wf_pairs(rest)) by {
            assert(forall|i: int| 0 <= i < rest.len() ==> #[trigger] rest[i] == ps[i + 1]);
        }
        lemma_query_round_trip(rest);
        assert(parse_from(s, 0) == seq![ps[0]] + rest);
        assert(seq![ps[0]] + rest =~= ps);
    }
}

/// A query string with one leading `?` removed.
pub open spec fn strip_query_mark(s: Seq<char>) -> Seq<char> {
    if s.len() > 0 && s[0] == '?' {
        s.subrange(1, s.len() as int)
    } else {
        s
    }
}

/// The redirect query of a leaf: start from the current query — or from
/// nothing, when overwriting or when the current query is empty — set the
/// pair, and serialize.
pub open spec fn spec_build_query(
    current: Seq<char>,
    key: Seq<char>,
    value: Seq<char>,
    overwrite: bool,
) -> Seq<char> {
    let base = if overwrite || current.len() == 0 {
        Seq::empty()
    } else {
        parse_from(strip_query_mark(current), 0)
    };
    serialize_params(set_param(base, key, value))
}

/// Parse a query string (without its leading `?`) into parameters.
pub fn parse_query(q: &str) -> (r: Vec<(String, String)>)
    ensures
        qpairs_view(r@) == parse_from(q@, 0),
{
    let len = q.unicode_len();
    let mut pairs: Vec<(String, String)> = Vec::new();
    let mut pos: usize = 0;
    proof {
        assert(parse_from(q@, 0) =~= qpairs_view(pairs@) + parse_from(q@, 0));
    }
    while pos < len
        invariant
            pos <= len,
            len == q@.len(),
            parse_from(q@, 0) == qpairs_view(pairs@) + parse_from(q@, pos as int),
        decreases len - pos,
    {
        let a = scan_char(q, '&', pos);
        if a == pos {
            // An empty segment: skip the separator.
            proof {
                assert(parse_from(q@, pos as int) == parse_from(q@, pos as int + 1));
            }
            pos = pos + 1;
        } else {
            let seg = q.substring_char(pos, a);
            let seg_len = seg.unicode_len();
            let e = scan_char(seg, '=', 0);
            let k: String;
            let v: String;
            if e < seg_len {
                k = seg.substring_char(0, e).to_owned();
                v = seg.substring_char(e + 1, seg_len).to_owned();
            } else {
                k = seg.to_owned();
                v = String::new();
            }
            let kv = (k, v);
            let ghost kvg = kv;
            proof {
                assert(pair_of(q@.subrange(pos as int, a as int)) == (kvg.0@, kvg.1@));
            }
            let ghost old_pairs = pairs@;
            let ghost rest = parse_from(q@, a as int + 1);
            pairs.push(kv);
            proof {
                lemma_qpairs_push(old_pairs, kvg);
                if a < len {
                    assert(parse_from(q@, pos as int) == seq![(kvg.0@, kvg.1@)] + rest);
                    assert(qpairs_view(old_pairs) + (seq![(kvg.0@, kvg.1@)] + rest)
                        =~= qpairs_view(pairs@) + rest);
                } else {
                    assert(parse_from(q@, pos as int) == seq![(kvg.0@, kvg.1@)]);
                    assert(parse_from(q@, a as int) =~= Seq::<(Seq<char>, Seq<char>)>::empty());
                    assert(qpairs_view(old_pairs) + seq![(kvg.0@, kvg.1@)] =~= qpairs_view(pairs@)
                        + parse_from(q@, a as int));
                }
            }
            pos = if a < len {
                a + 1
            } else {
                len
            };
        }
    }
    proof {
        assert(parse_from(q@, pos as int) =~= Seq::<(Seq<char>, Seq<char>)>::empty());
        assert(parse_from(q@, 0) =~= qpairs_view(pairs@));
    }
    pairs
}

/// The position of the first pair with the given key, or the length.
fn find_key(pairs: &Vec<(String, String)>, key: &String) -> (r: usize)
    ensures
        r as int == first_key_from(qpairs_view(pairs@), key@, 0),
        r <= pairs@.len(),
{
    let ghost ps = qpairs_view(pairs@);
    let n = pairs.len();
    let mut i: usize = 0;
    while i < n
        invariant
            i <= n,
            n == pairs@.len(),
            ps == qpairs_view(pairs@),
            first_key_from(ps, key@, 0) == first_key_from(ps, key@, i as int),
        decreases n - i,
    {
        if pairs[i].0.eq(key) {
            proof {
                assert(ps[i as int].0 == key@);
                assert(first_key_from(ps, key@, i as int) == i as int);
            }
            return i;
        }
        proof {
            assert(ps[i as int].0 != key@);
        }
        i = i + 1;
    }
    proof {
        assert(first_key_from(ps, key@, n as int) == n as int);
    }
    n
}

/// Set a parameter in a parsed query, browser-style.
pub fn set_query_param(pairs: Vec<(String, String)>, key: &str, value: &str) -> (r: Vec<
    (String, String),
>)
    ensures
        qpairs_view(r@) == set_param(qpairs_view(pairs@), key@, value@),
{
    let ghost ps = qpairs_view(pairs@);
    let key_owned = key.to_owned();
    let n = pairs.len();
    let i = find_key(&pairs, &key_owned);

    if i >= n {
        // The key is absent: append it.
        let ghost old_pairs = pairs@;
        let mut out = pairs;
        let new_pair = (key_owned, value.to_owned());
        let ghost np = new_pair;
        out.push(new_pair);
        proof {
            lemma_qpairs_push(old_pairs, np);
            assert(qpairs_view(out@) =~= ps.push((key@, value@)));
        }
        return out;
    }

    // The key is present: the first occurrence takes the new value, later
    // occurrences drop.
    let mut out: Vec<(String, String)> = Vec::new();
    let mut j: usize = 0;
    while j < i
        invariant
            j <= i,
            i < n,
            n == pairs@.len(),
            ps == qpairs_view(pairs@),
            qpairs_view(out@) == ps.subrange(0, j as int),
        decreases i - j,
    {
        let ghost old_out = out@;
        let pc = (pairs[j].0.clone(), pairs[j].1.clone());
        let ghost pcg = pc;
        out.push(pc);
        proof {
            lemma_qpairs_push(old_out, pcg);
            assert(qpairs_view(out@) =~= ps.subrange(0, j as int + 1));
        }
        j = j + 1;
    }
    let ghost old_out = out@;
    let new_pair = (key_owned.clone(), value.to_owned());
    let ghost np = new_pair;
    out.push(new_pair);
    proof {
        lemma_qpairs_push(old_out, np);
        assert(qpairs_view(out@) =~= ps.subrange(0, i as int).push((key@, value@)));
    }
    let ghost base = ps.subrange(0, i as int).push((key@, value@));
    let mut j: usize = i + 1;
    while j < n
        invariant
            i < n,
            i + 1 <= j <= n,
            n == pairs@.len(),
            key_owned@ == key@,
            ps == qpairs_view(pairs@),
            qpairs_view(out@) == base + filter_out_key(ps.subrange(i as int + 1, j as int), key@),
        decreases n - j,
    {
        let ghost pre = ps.subrange(i as int + 1, j as int);
        let ghost cur = ps.subrange(i as int + 1, j as int + 1);
        proof {
            assert(cur.drop_last() =~= pre);
            assert(cur.last() == ps[j as int]);
        }
        if !pairs[j].0.eq(&key_owned) {
            let ghost old_out = out@;
            let pc = (pairs[j].0.clone(), pairs[j].1.clone());
            let ghost pcg = pc;
            out.push(pc);
            proof {
                lemma_qpairs_push(old_out, pcg);
                assert(ps[j as int].0 != key@);
                assert(qpairs_view(out@) =~= base + filter_out_key(cur, key@));
            }
        } else {
            proof {
                assert(ps[j as int].0 == key@);
                assert(qpairs_view(out@) =~= base + filter_out_key(cur, key@));
            }
        }
        j = j + 1;
    }
    proof {
        assert(ps.subrange(i as int + 1, n as int) =~= ps.subrange(i as int + 1, ps.len() as int));
    }
    out
}

/// Serialize parameters back to a query string.
pub fn serialize_query(pairs: &Vec<(String, String)>) -> (r: String)
    ensures
        r@ == serialize_params(qpairs_view(pairs@)),
{
    let ghost ps = qpairs_view(pairs@);
    let mut r = String::new();
    let n = pairs.len();
    let mut j: usize = 0;
    let amp = "&";
    let eq_mark = "=";
    proof {
        reveal_strlit("&");
        reveal_strlit("=");
        assert(amp@ =~= seq!['&']);
        assert(eq_mark@ =~= seq!['=']);
    }
    while j < n
        invariant
            j <= n,
            n == pairs@.len(),
            ps == qpairs_view(pairs@),
            amp@ == seq!['&'],
            eq_mark@ == seq!['='],
            r@ == serialize_params(ps.subrange(0, j as int)),
        decreases n - j,
    {
        if j > 0 {
            r.append(amp);
        }
        r.append(pairs[j].0.as_str());
        r.append(eq_mark);
        r.append(pairs[j].1.as_str());
        proof {
            let cur = ps.subrange(0, j as int + 1);
            assert(cur.drop_last() =~= ps.subrange(0, j as int));
            assert(cur.last() == ps[j as int]);
            assert(r@ =~= serialize_params(cur));
        }
        j = j + 1;
    }
    proof {
        assert(ps.subrange(0, n as int) =~= ps);
    }
    r
}

/// Build the query string of a redirecting leaf: from the page's current
/// query (with or without its leading `?`), the leaf's `(key, value)`
/// pair, and whether existing parameters are to be discarded.
pub fn build_redirect_query(current_search: &str, key: &str, value: &str, overwrite: bool) -> (r:
    String)
    ensures
        r@ == spec_build_query(current_search@, key@, value@, overwrite),
{
    let base: Vec<(String, String)> = if overwrite || current_search.is_empty() {
        Vec::new()
    } else {
        let len = current_search.unicode_len();
        let stripped: &str = if current_search.get_char(0) == '?' {
            current_search.substring_char(1, len)
        } else {
            current_search
        };
        parse_query(stripped)
    };
    proof {
        if overwrite || current_search@.len() == 0 {
            assert(qpairs_view(base@) =~= Seq::<(Seq<char>, Seq<char>)>::empty());
        }
    }
    let with_pair = set_query_param(base, key, value);
    serialize_query(&with_pair)
}

// ---------------------------------------------------------------------
// The drill-down menu
// ---------------------------------------------------------------------

/// A redirecting leaf of the filter menu: the query parameter it sets,
/// and its visible title.
#[derive(Debug, PartialEq, Eq)]
pub struct FilterItemRedirectProps {
    /// The query parameter the leaf's destination sets: key and value.
    pub search: (String, String),
    pub title: String,
}

impl Clone for FilterItemRedirectProps {
    fn clone(&self) -> (r: Self)
        ensures
            r == *self,
    {
        Self { search: (self.search.0.clone(), self.search.1.clone()), title: self.title.clone() }
    }
}

/// One rendered dropdown row.
#[derive(Debug, PartialEq, Eq)]
pub enum FilterRow {
    /// The injected row that leaves the drill-down.
    Back,
    Item(FilterItemRedirectProps),
}

/// The shared handler descendants use to drill into a submenu: at most
/// one level of override over the root menu.
#[derive(Debug)]
pub struct FilterContainerContext {
    /// Whether leaf redirects discard the page's existing query.
    pub overwrite_query: bool,
    /// The children shown instead of the root menu, if any.
    pub drop_children: Option<Vec<FilterItemRedirectProps>>,
}

/// Requesting children replaces any current override outright.
pub open spec fn post_request(
    pre: FilterContainerContext,
    items: Vec<FilterItemRedirectProps>,
    post: FilterContainerContext,
) -> bool {
    &&& post.overwrite_query == pre.overwrite_query
    &&& post.drop_children == Some(items)
}

/// The rows the container renders: the root menu, or — under an override
/// — one Back row followed by the override's children.
pub open spec fn spec_rows(ctx: FilterContainerContext, root: Seq<FilterItemRedirectProps>) -> Seq<
    FilterRow,
> {
    match ctx.drop_children {
        Some(cs) => seq![FilterRow::Back] + cs@.map_values(
            |c: FilterItemRedirectProps| FilterRow::Item(c),
        ),
        None => root.map_values(|c: FilterItemRedirectProps| FilterRow::Item(c)),
    }
}

/// How many Back rows a row sequence holds.
pub open spec fn back_count(rows: Seq<FilterRow>) -> int
    decreases rows.len(),
{
    if rows.len() == 0 {
        0
    } else {
        back_count(rows.drop_last()) + if rows.last() is Back {
            1int
        } else {
            0int
        }
    }
}

/// Mapping items to item rows adds no Back row.
proof fn lemma_item_rows_push(
    rows: Seq<FilterItemRedirectProps>,
    x: FilterItemRedirectProps,
)
    ensures
        rows.push(x).map_values(|c: FilterItemRedirectProps| FilterRow::Item(c)) == rows.map_values(
            |c: FilterItemRedirectProps| FilterRow::Item(c),
        ).push(FilterRow::Item(x)),
{
    let f = |c: FilterItemRedirectProps| FilterRow::Item(c);
    assert forall|k: int| 0 <= k < rows.len() + 1 implies #[trigger] rows.push(x).map_values(f)[k]
        == rows.map_values(f).push(FilterRow::Item(x))[k] by {
        if k < rows.len() {
            assert(rows.push(x)[k] == rows[k]);
        } else {
            assert(rows.push(x)[k] == x);
        }
    }
    assert(rows.push(x).map_values(f) =~= rows.map_values(f).push(FilterRow::Item(x)));
}

impl FilterContainerContext {
    /// A fresh container shows its root menu.
    pub fn create(overwrite_query: bool) -> (r: Self)
        ensures
            r.overwrite_query == overwrite_query,
            r.drop_children is None,
    {
        Self { overwrite_query, drop_children: None }
    }

    /// A descendant dropdown asks to show these children instead of the
    /// root menu. A second request replaces the first: only one level of
    /// drill-down is representable.
    pub fn request_children(&mut self, items: Vec<FilterItemRedirectProps>)
        ensures
            post_request(*old(self), items, *final(self)),
    {
        self.drop_children = Some(items);
    }

    /// The Back row was clicked: return to the root menu.
    pub fn back(&mut self)
        ensures
            final(self).drop_children is None,
            final(self).overwrite_query == old(self).overwrite_query,
    {
        self.drop_children = None;
    }

    /// The hosting popup closed: clear the override.
    pub fn on_close_popup(&mut self)
        ensures
            final(self).drop_children is None,
            final(self).overwrite_query == old(self).overwrite_query,
    {
        self.drop_children = None;
    }

    /// The rows rendered for this state over the given root menu.
    pub fn rows(&self, root: &Vec<FilterItemRedirectProps>) -> (r: Vec<FilterRow>)
        ensures
            r@ == spec_rows(*self, root@),
    {
        let mut r: Vec<FilterRow> = Vec::new();
        match &self.drop_children {
            Some(cs) => {
                r.push(FilterRow::Back);
                let n = cs.len();
                let mut i: usize = 0;
                while i < n
                    invariant
                        i <= n,
                        n == cs@.len(),
                        r@ == seq![FilterRow::Back] + cs@.subrange(0, i as int).map_values(
                            |c: FilterItemRedirectProps| FilterRow::Item(c),
                        ),
                    decreases n - i,
                {
                    let ghost pre = cs@.subrange(0, i as int);
                    let ghost cur = cs@.subrange(0, i as int + 1);
                    r.push(FilterRow::Item(cs[i].clone()));
                    proof {
                        assert(cur =~= pre.push(cs@[i as int]));
                        lemma_item_rows_push(pre, cs@[i as int]);
                        assert(r@ =~= seq![FilterRow::Back] + cur.map_values(
                            |c: FilterItemRedirectProps| FilterRow::Item(c),
                        ));
                    }
                    i = i + 1;
                }
                proof {
                    assert(cs@.subrange(0, n as int) =~= cs@);
                }
            },
            None => {
                let n = root.len();
                let mut i: usize = 0;
                while i < n
                    invariant
                        i <= n,
                        n == root@.len(),
                        r@ == root@.subrange(0, i as int).map_values(
                            |c: FilterItemRedirectProps| FilterRow::Item(c),
                        ),
                    decreases n - i,
                {
                    let ghost pre = root@.subrange(0, i as int);
                    let ghost cur = root@.subrange(0, i as int + 1);
                    r.push(FilterRow::Item(root[i].clone()));
                    proof {
                        assert(cur =~= pre.push(root@[i as int]));
                        lemma_item_rows_push(pre, root@[i as int]);
                        assert(r@ =~= cur.map_values(
                            |c: FilterItemRedirectProps| FilterRow::Item(c),
                        ));
                    }
                    i = i + 1;
                }
                proof {
                    assert(root@.subrange(0, n as int) =~= root@);
                }
            },
        }
        r
    }
}

/// A row sequence of one Back row followed by item rows holds exactly
/// one Back row.
proof fn lemma_back_count_one(cs: Seq<FilterItemRedirectProps>)
    ensures
        back_count(
            seq![FilterRow::Back] + cs.map_values(|c: FilterItemRedirectProps| FilterRow::Item(c)),
        ) == 1,
    decreases cs.len(),
{
    let f = |c: FilterItemRedirectProps| FilterRow::Item(c);
    let rows = seq![FilterRow::Back] + cs.map_values(f);
    if cs.len() == 0 {
        assert(rows =~= seq![FilterRow::Back]);
        assert(seq![FilterRow::Back].drop_last() =~= Seq::<FilterRow>::empty());
        assert(back_count(Seq::<FilterRow>::empty()) == 0);
        assert(back_count(seq![FilterRow::Back]) == 1);
    } else {
        let shorter = seq![FilterRow::Back] + cs.drop_last().map_values(f);
        assert(rows.drop_last() =~= shorter);
        assert(rows.last() == f(cs.last()));
        assert(!(rows.last() is Back));
        lemma_back_count_one(cs.drop_last());
    }
}

/// Requesting nested children twice in a row — without pressing Back —
/// replaces rather than stacks the override: the second list is what
/// shows, behind exactly one Back row.
pub proof fn lemma_request_twice_replaces(
    s0: FilterContainerContext,
    l1: Vec<FilterItemRedirectProps>,
    s1: FilterContainerContext,
    l2: Vec<FilterItemRedirectProps>,
    s2: FilterContainerContext,
    root: Seq<FilterItemRedirectProps>,
)
    requires
        post_request(s0, l1, s1),
        post_request(s1, l2, s2),
    ensures
        s2.drop_children == Some(l2),
        spec_rows(s2, root) == seq![FilterRow::Back] + l2@.map_values(
            |c: FilterItemRedirectProps| FilterRow::Item(c),
        ),
        back_count(spec_rows(s2, root)) == 1,
{
    lemma_back_count_one(l2@);
}

} // verus!
