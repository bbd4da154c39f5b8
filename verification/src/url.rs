//! Verified extraction of query parameters from a trade URL. The grammar is
//! the conventional one: the query is everything after the first `?`,
//! parameters are separated by `&`, and each parameter is a key, the text
//! before its first `=`, and a value, the text after it (empty when a
//! parameter has no `=`).
use vstd::prelude::*;
use vstd::string::StrSliceExecFns;

verus! {

/// The text before the first occurrence of `c`, or all of `p` if `c` does
/// not occur.
pub open spec fn before_char(p: Seq<char>, c: char) -> Seq<char>
    decreases p.len(),
{
    if p.len() == 0 {
        p
    } else if p[0] == c {
        Seq::<char>::empty()
    } else {
        seq![p[0]] + before_char(p.drop_first(), c)
    }
}

/// The text after the first occurrence of `c`, or empty if `c` does not
/// occur.
pub open spec fn after_char(p: Seq<char>, c: char) -> Seq<char>
    decreases p.len(),
{
    if p.len() == 0 {
        Seq::<char>::empty()
    } else if p[0] == c {
        p.drop_first()
    } else {
        after_char(p.drop_first(), c)
    }
}

/// Dropping everything up to and through the first occurrence of a character
/// shortens a non-empty text.
pub proof fn lemma_after_char_shorter(p: Seq<char>, c: char)
    requires
        p.len() > 0,
    ensures
        after_char(p, c).len() < p.len(),
    decreases p.len(),
{
    if p[0] != c {
        if p.drop_first().len() > 0 {
            lemma_after_char_shorter(p.drop_first(), c)
        } else {
            assert(after_char(p.drop_first(), c) == Seq::<char>::empty());
        }
    }
}

/// The value of the first parameter with the given key in a query text, or
/// `None` if no parameter has that key.
pub open spec fn query_lookup(q: Seq<char>, key: Seq<char>) -> Option<Seq<char>>
    decreases q.len(),
        via query_lookup_decreases
{
    if q.len() == 0 {
        None::<Seq<char>>
    } else {
        let param = before_char(q, '&');
        if before_char(param, '=') == key {
            Some(after_char(param, '='))
        } else {
            query_lookup(after_char(q, '&'), key)
        }
    }
}

#[via_fn]
proof fn query_lookup_decreases(q: Seq<char>, key: Seq<char>) {
    if q.len() > 0 {
        lemma_after_char_shorter(q, '&');
    }
}

/// The value of the named query parameter of a URL: the query is the text
/// after the first `?`.
pub open spec fn spec_query_param(url: Seq<char>, key: Seq<char>) -> Option<Seq<char>> {
    query_lookup(after_char(url, '?'), key)
}

/// Where a scan found the first occurrence of `c` at index `i` (or found
/// none, with `i` the end of the scan), the before/after split is given by
/// taking subranges at `i`.
proof fn lemma_split_at_first(p: Seq<char>, c: char, i: int)
    requires
        0 <= i <= p.len(),
        forall|j: int| 0 <= j < i ==> p[j] != c,
        i < p.len() ==> p[i] == c,
    ensures
        i < p.len() ==> before_char(p, c) == p.subrange(0, i) && after_char(p, c) == p.subrange(
            i + 1,
            p.len() as int,
        ),
        i == p.len() ==> before_char(p, c) == p && after_char(p, c) == Seq::<char>::empty(),
    decreases i,
{
    if p.len() == 0 {
        assert(p.subrange(0, 0) =~= p);
    } else if p[0] == c {
        assert(i == 0);
        assert(before_char(p, c) =~= p.subrange(0, 0));
        assert(after_char(p, c) =~= p.subrange(1, p.len() as int));
    } else {
        let rest = p.drop_first();
        lemma_split_at_first(rest, c, i - 1);
        if i < p.len() {
            assert(before_char(p, c) == seq![p[0]] + before_char(rest, c));
            assert(before_char(rest, c) == rest.subrange(0, i - 1));
            assert(seq![p[0]] + rest.subrange(0, i - 1) =~= p.subrange(0, i));
            assert(after_char(rest, c) == rest.subrange(i, rest.len() as int));
            assert(rest.subrange(i, rest.len() as int) =~= p.subrange(i + 1, p.len() as int));
        } else {
            assert(seq![p[0]] + rest =~= p);
        }
    }
}

/// Scan for the first occurrence of `c` in `s` between `from` and `to`;
/// the result is `to` when there is none.
fn find_char_in(s: &str, from: usize, to: usize, c: char) -> (r: usize)
    requires
        from <= to <= s@.len(),
    ensures
        from <= r <= to,
        forall|j: int| from <= j < r ==> s@[j] != c,
        r < to ==> s@[r as int] == c,
{
    let mut i: usize = from;
    while i < to
        invariant
            from <= i <= to <= s@.len(),
            forall|j: int| from <= j < i ==> s@[j] != c,
        decreases to - i,
    {
        if s.get_char(i) == c {
            return i;
        }
        i = i + 1;
    }
    i
}

/// Compare a character range of `s` against `t`.
fn range_eq_str(s: &str, from: usize, to: usize, t: &str) -> (r: bool)
    requires
        from <= to <= s@.len(),
    ensures
        r == (s@.subrange(from as int, to as int) == t@),
{
    let tn: usize = t.unicode_len();
    if to - from != tn {
        assert(s@.subrange(from as int, to as int).len() == to - from);
        return false;
    }
    let mut j: usize = 0;
    while j < tn
        invariant
            from <= to <= s@.len(),
            tn == t@.len(),
            tn == to - from,
            0 <= j <= tn,
            forall|k: int| 0 <= k < j ==> s@[from + k] == t@[k],
        decreases tn - j,
    {
        if s.get_char(from + j) != t.get_char(j) {
            assert(s@.subrange(from as int, to as int)[j as int] != t@[j as int]);
            return false;
        }
        j = j + 1;
    }
    proof {
        assert(s@.subrange(from as int, to as int) =~= t@);
    }
    true
}

/// Extract the value of the named query parameter of a URL, or `None` when
/// no parameter carries that key.
pub fn query_param(url: &str, key: &str) -> (r: Option<String>)
    ensures
        r is Some <==> spec_query_param(url@, key@) is Some,
        r matches Some(v) ==> spec_query_param(url@, key@) == Some(v@),
{
    let n: usize = url.unicode_len();
    let qpos: usize = find_char_in(url, 0, n, '?');
    proof {
        lemma_split_at_first(url@, '?', qpos as int);
    }
    if qpos == n {
        return None;
    }
    let q: &str = url.substring_char(qpos + 1, n);
    assert(q@ == after_char(url@, '?'));
    let qn: usize = q.unicode_len();
    let mut pos: usize = 0;
    proof {
        assert(q@.subrange(0, qn as int) =~= q@);
    }
    while pos < qn
        invariant
            qn == q@.len(),
            0 <= pos <= qn,
            q@ == after_char(url@, '?'),
            query_lookup(q@.subrange(pos as int, qn as int), key@) == query_lookup(q@, key@),
        decreases qn - pos,
    {
        let ghost suffix = q@.subrange(pos as int, qn as int);
        let amp: usize = find_char_in(q, pos, qn, '&');
        proof {
            lemma_split_at_first(suffix, '&', amp - pos);
            assert(suffix.subrange(0, amp - pos) =~= q@.subrange(pos as int, amp as int));
            if amp < qn {
                assert(suffix.subrange(amp - pos + 1, suffix.len() as int) =~= q@.subrange(
                    amp as int + 1,
                    qn as int,
                ));
            }
        }
        let ghost param = before_char(suffix, '&');
        assert(param == q@.subrange(pos as int, amp as int));
        let eq: usize = find_char_in(q, pos, amp, '=');
        proof {
            lemma_split_at_first(param, '=', eq - pos);
            assert(param.subrange(0, eq - pos) =~= q@.subrange(pos as int, eq as int));
            if eq < amp {
                assert(param.subrange(eq - pos + 1, param.len() as int) =~= q@.subrange(
                    eq as int + 1,
                    amp as int,
                ));
            }
        }
        if range_eq_str(q, pos, eq, key) {
            assert(before_char(param, '=') == key@);
            let value: String = if eq < amp {
                q.substring_char(eq + 1, amp).to_owned()
            } else {
                String::new()
            };
            assert(value@ == after_char(param, '='));
            assert(query_lookup(suffix, key@) == Some(after_char(param, '=')));
            return Some(value);
        }
        assert(before_char(param, '=') != key@);
        assert(query_lookup(suffix, key@) == query_lookup(after_char(suffix, '&'), key@));
        if amp == qn {
            assert(after_char(suffix, '&') == Seq::<char>::empty());
            assert(query_lookup(Seq::<char>::empty(), key@) is None);
            assert(query_lookup(q@, key@) is None);
            return None;
        }
        assert(after_char(suffix, '&') == q@.subrange(amp as int + 1, qn as int));
        pos = amp + 1;
    }
    assert(q@.subrange(pos as int, qn as int) =~= Seq::<char>::empty());
    None
}

} // verus!
