use vstd::prelude::*;
use vstd::string::*;
use crate::text::chars_of;

verus! {

/// Whether the cookie separator `"; "` starts at position `j` of `s`.
pub open spec fn separator_at(s: Seq<char>, j: int) -> bool {
    0 <= j && j + 1 < s.len() && s[j] == ';' && s[j + 1] == ' '
}

/// The first position at or after `i` where a `"; "` starts, or the length of
/// `s` when there is none.
pub open spec fn next_separator(s: Seq<char>, i: int) -> int
    decreases s.len() - i,
{
    if i >= s.len() {
        s.len() as int
    } else if separator_at(s, i) {
        i
    } else {
        next_separator(s, i + 1)
    }
}

/// Whether the cookie pair `p` starts with the name `user`.
pub open spec fn starts_with_user(p: Seq<char>) -> bool {
    p.len() >= 4 && p[0] == 'u' && p[1] == 's' && p[2] == 'e' && p[3] == 'r'
}

pub proof fn lemma_next_separator(s: Seq<char>, i: int)
    requires
        0 <= i <= s.len(),
    ensures
        i <= next_separator(s, i) <= s.len(),
        next_separator(s, i) < s.len() ==> separator_at(s, next_separator(s, i)),
        forall|j: int| i <= j < next_separator(s, i) ==> !separator_at(s, j),
    decreases s.len() - i,
{
    if i < s.len() && !separator_at(s, i) {
        lemma_next_separator(s, i + 1);
    }
}

/// Cut `s` at every `"; "`, starting from position `start`: the first piece that
/// starts with `user`, if any.
pub open spec fn user_pair_from(s: Seq<char>, start: int) -> Option<Seq<char>>
    decreases s.len() - start,
{
    if start < 0 || start > s.len() {
        None
    } else {
        let end = next_separator(s, start);
        let piece = s.subrange(start, end);
        if starts_with_user(piece) {
            Some(piece)
        } else if end >= s.len() {
            None
        } else {
            proof {
                lemma_next_separator(s, start);
            }
            user_pair_from(s, end + 2)
        }
    }
}

/// What follows the last `=` of `p` (all of `p` when it has none): the last
/// piece of `p.split('=')`.
pub open spec fn after_last_equals(p: Seq<char>) -> Seq<char>
    decreases p.len(),
{
    if p.len() == 0 {
        p
    } else if p.last() == '=' {
        Seq::empty()
    } else {
        after_last_equals(p.drop_last()).push(p.last())
    }
}

/// The value of the `user` cookie in a `Cookie` header: the first pair that
/// starts with `user`, read after its last `=`.
pub open spec fn user_cookie_value(header: Seq<char>) -> Option<Seq<char>> {
    match user_pair_from(header, 0) {
        Some(pair) => Some(after_last_equals(pair)),
        None => None,
    }
}

/// Finds the first `"; "` at or after `i`.
fn find_separator(cs: &Vec<char>, i: usize) -> (r: usize)
    requires
        i <= cs@.len(),
    ensures
        r == next_separator(cs@, i as int),
{
    let n = cs.len();
    let mut j = i;
    while j < n
        invariant
            n == cs@.len(),
            i <= j <= n,
            next_separator(cs@, i as int) == next_separator(cs@, j as int),
        decreases n - j,
    {
        if j + 1 < n && cs[j] == ';' && cs[j + 1] == ' ' {
            return j;
        }
        j = j + 1;
    }
    j
}

/// The position just after the last `=` in `cs[from..to]`, or `from` when there is none.
fn after_last_equals_start(cs: &Vec<char>, from: usize, to: usize) -> (k: usize)
    requires
        from <= to <= cs@.len(),
    ensures
        from <= k <= to,
        after_last_equals(cs@.subrange(from as int, to as int)) == cs@.subrange(k as int, to as int),
{
    let ghost p = cs@.subrange(from as int, to as int);
    let mut k = to;
    assert(p.take(to - from) =~= p);
    assert(cs@.subrange(to as int, to as int) =~= Seq::<char>::empty());
    while k > from && cs[k - 1] != '='
        invariant
            from <= k <= to <= cs@.len(),
            p == cs@.subrange(from as int, to as int),
            after_last_equals(p) == after_last_equals(p.take(k - from)) + cs@.subrange(k as int, to as int),
        decreases k,
    {
        let ghost q = p.take(k - from);
        assert(q.last() == cs@[k - 1]);
        assert(q.drop_last() =~= p.take(k - 1 - from));
        assert(cs@.subrange(k - 1, to as int) =~= seq![cs@[k - 1]] + cs@.subrange(k as int, to as int));
        assert(after_last_equals(q) == after_last_equals(q.drop_last()).push(q.last()));
        assert(after_last_equals(q) + cs@.subrange(k as int, to as int)
            =~= after_last_equals(p.take(k - 1 - from)) + cs@.subrange(k - 1, to as int));
        k = k - 1;
    }
    if k == from {
        assert(p.take(0) =~= Seq::<char>::empty());
    } else {
        assert(p.take(k - from).last() == '=');
    }
    assert(after_last_equals(p.take(k - from)) =~= Seq::<char>::empty());
    assert(after_last_equals(p) =~= cs@.subrange(k as int, to as int));
    k
}

/// The value of the `user` cookie in the `Cookie` header `header`, as the
/// session reader takes it: split at `"; "`, the first pair whose text starts
/// with `user`, and the text after its last `=`.
pub fn user_cookie_payload(header: &str) -> (r: Option<String>)
    ensures
        r matches Some(v) ==> user_cookie_value(header@) == Some(v@),
        r is None <==> user_cookie_value(header@) is None,
{
    let cs = chars_of(header);
    let n = cs.len();
    let mut start: usize = 0;
    loop
        invariant
            n == cs@.len(),
            cs@ == header@,
            start <= n,
            user_pair_from(cs@, 0) == user_pair_from(cs@, start as int),
        decreases n - start,
    {
        let end = find_separator(&cs, start);
        proof {
            lemma_next_separator(cs@, start as int);
        }
        let ghost piece = cs@.subrange(start as int, end as int);
        if end - start >= 4 && cs[start] == 'u' && cs[start + 1] == 's' && cs[start + 2] == 'e'
            && cs[start + 3] == 'r' {
            let k = after_last_equals_start(&cs, start, end);
            let value = header.substring_char(k, end);
            return Some(value.to_owned());
        }
        assert(!starts_with_user(piece));
        if end >= n {
            return None;
        }
        start = end + 2;
    }
}

/// The `Set-Cookie` value that stores `payload` as the `user` cookie.
pub fn user_cookie_header(payload: &str) -> (r: String)
    ensures
        r@ == "user="@ + payload@ + "; path=/; HttpOnly"@,
{
    let mut r = String::from_str("user=");
    r.append(payload);
    r.append("; path=/; HttpOnly");
    r
}

/// The `Set-Cookie` value that empties the `user` cookie and lets it expire.
pub fn remove_cookie_header() -> (r: String)
    ensures
        r@ == "user=; path=/; expires=Thu, 01 Jan 1970 00:00:00 GMT"@,
{
    String::from_str("user=; path=/; expires=Thu, 01 Jan 1970 00:00:00 GMT")
}

/// The name part `user=` of the session cookie pair.
pub open spec fn user_pair_name() -> Seq<char> {
    seq!['u', 's', 'e', 'r', '=']
}

/// Whether `p` holds no `=` and no `"; "`, so that it survives as a cookie value.
pub open spec fn plain_cookie_value(p: Seq<char>) -> bool {
    &&& forall|i: int| 0 <= i < p.len() ==> p[i] != '='
    &&& forall|i: int| 0 <= i < p.len() ==> !separator_at(p, i)
}

proof fn lemma_after_last_equals_tail(a: Seq<char>, q: Seq<char>)
    requires
        forall|i: int| 0 <= i < q.len() ==> q[i] != '=',
    ensures
        after_last_equals(a.push('=') + q) == q,
    decreases q.len(),
{
    let h = a.push('=') + q;
    if q.len() == 0 {
        assert(h =~= a.push('='));
    } else {
        lemma_after_last_equals_tail(a, q.drop_last());
        assert(h.drop_last() =~= a.push('=') + q.drop_last());
        assert(h.last() == q.last());
        assert(q.drop_last().push(q.last()) =~= q);
    }
}

proof fn lemma_no_separator_before(h: Seq<char>, i: int, e: int)
    requires
        0 <= i <= e <= h.len(),
        forall|j: int| i <= j < e ==> !separator_at(h, j),
        e == h.len() || separator_at(h, e),
    ensures
        next_separator(h, i) == e,
    decreases e - i,
{
    if i < e {
        lemma_no_separator_before(h, i + 1, e);
    }
}

/// Reading the session cookie gives back the value that was stored: in a
/// `Cookie` header that starts with the pair `user=<p>`, alone or followed by
/// `"; "` and more cookies, the user cookie value is `p`, for every `p` with no
/// `=` and no `"; "` in it (such as the JSON text of a user).
pub proof fn law_cookie_round_trip(p: Seq<char>, rest: Option<Seq<char>>)
    requires
        plain_cookie_value(p),
    ensures
        user_cookie_value(match rest {
            Some(r) => user_pair_name() + p + seq![';', ' '] + r,
            None => user_pair_name() + p,
        }) == Some(p),
{
    let pair = user_pair_name() + p;
    let h = match rest {
        Some(r) => pair + seq![';', ' '] + r,
        None => pair,
    };
    assert forall|j: int| 0 <= j < pair.len() implies !separator_at(h, j) by {
        if j >= 5 && j + 1 < pair.len() {
            assert(h[j] == p[j - 5] && h[j + 1] == p[j - 4]);
            assert(!separator_at(p, j - 5));
        }
        if j + 1 == pair.len() && j >= 5 {
            assert(h[j] == p[j - 5]);
        }
    }
    if rest is Some {
        assert(separator_at(h, pair.len() as int));
    } else {
        assert(h =~= pair);
    }
    lemma_no_separator_before(h, 0, pair.len() as int);
    assert(h.subrange(0, pair.len() as int) =~= pair);
    assert(starts_with_user(pair));
    lemma_after_last_equals_tail(seq!['u', 's', 'e', 'r'], p);
    assert(seq!['u', 's', 'e', 'r'].push('=') + p =~= pair);
}

/// Whether `q` holds no `"; "` of its own.
pub open spec fn no_separator(q: Seq<char>) -> bool {
    forall|i: int| 0 <= i < q.len() ==> !separator_at(q, i)
}

/// The cookie pairs `qs`, each followed by `"; "`, then `tail`: a `Cookie`
/// header in which `tail` comes after the pairs `qs`.
pub open spec fn cookies_before(qs: Seq<Seq<char>>, tail: Seq<char>) -> Seq<char>
    decreases qs.len(),
{
    if qs.len() == 0 {
        tail
    } else {
        qs[0] + seq![';', ' '] + cookies_before(qs.drop_first(), tail)
    }
}

proof fn lemma_next_separator_shift(s: Seq<char>, k: int, i: int)
    requires
        0 <= k <= i <= s.len(),
    ensures
        next_separator(s, i) == next_separator(s.skip(k), i - k) + k,
    decreases s.len() - i,
{
    if i < s.len() {
        assert(separator_at(s, i) == separator_at(s.skip(k), i - k));
        if !separator_at(s, i) {
            lemma_next_separator_shift(s, k, i + 1);
        }
    }
}

proof fn lemma_user_pair_shift(s: Seq<char>, k: int, start: int)
    requires
        0 <= k <= start <= s.len(),
    ensures
        user_pair_from(s, start) == user_pair_from(s.skip(k), start - k),
    decreases s.len() - start,
{
    let t = s.skip(k);
    lemma_next_separator_shift(s, k, start);
    lemma_next_separator(s, start);
    let end = next_separator(s, start);
    assert(s.subrange(start, end) =~= t.subrange(start - k, end - k));
    if !starts_with_user(s.subrange(start, end)) && end < s.len() {
        lemma_user_pair_shift(s, k, end + 2);
    }
}

proof fn lemma_no_separator_concat(a: Seq<char>, b: Seq<char>)
    requires
        no_separator(a),
        no_separator(b),
        a.len() > 0 && b.len() > 0 ==> !(a.last() == ';' && b[0] == ' '),
    ensures
        no_separator(a + b),
{
    let h = a + b;
    assert forall|i: int| 0 <= i < h.len() implies !separator_at(h, i) by {
        if i + 1 < a.len() {
            assert(h[i] == a[i] && h[i + 1] == a[i + 1]);
            assert(!separator_at(a, i));
        } else if i + 1 == a.len() {
            if i + 1 < h.len() {
                assert(h[i] == a.last() && h[i + 1] == b[0]);
            }
        } else {
            if i + 1 < h.len() {
                assert(h[i] == b[i - a.len()] && h[i + 1] == b[i - a.len() + 1]);
                assert(!separator_at(b, i - a.len()));
            }
        }
    }
}

proof fn lemma_skip_other_pair(q: Seq<char>, t: Seq<char>)
    requires
        !starts_with_user(q),
        no_separator(q),
    ensures
        user_pair_from(q + seq![';', ' '] + t, 0) == user_pair_from(t, 0),
{
    let h = q + seq![';', ' '] + t;
    let n = q.len() as int;
    assert forall|j: int| 0 <= j < n implies !separator_at(h, j) by {
        if j + 1 < n {
            assert(h[j] == q[j] && h[j + 1] == q[j + 1]);
            assert(!separator_at(q, j));
        } else {
            assert(h[j + 1] == ';');
        }
    }
    assert(separator_at(h, n));
    lemma_no_separator_before(h, 0, n);
    assert(h.subrange(0, n) =~= q);
    lemma_user_pair_shift(h, n + 2, n + 2);
    assert(h.skip(n + 2) =~= t);
}

proof fn lemma_skip_other_pairs(qs: Seq<Seq<char>>, t: Seq<char>)
    requires
        forall|i: int| 0 <= i < qs.len() ==> !starts_with_user(#[trigger] qs[i]) && no_separator(qs[i]),
    ensures
        user_pair_from(cookies_before(qs, t), 0) == user_pair_from(t, 0),
    decreases qs.len(),
{
    if qs.len() > 0 {
        assert(!starts_with_user(qs[0]) && no_separator(qs[0]));
        lemma_skip_other_pair(qs[0], cookies_before(qs.drop_first(), t));
        assert forall|i: int| 0 <= i < qs.drop_first().len() implies !starts_with_user(
            #[trigger] qs.drop_first()[i],
        ) && no_separator(qs.drop_first()[i]) by {
            assert(qs.drop_first()[i] == qs[i + 1]);
        }
        lemma_skip_other_pairs(qs.drop_first(), t);
    }
}

/// The user cookie is found wherever it stands in the header: after any cookie
/// pairs `qs` none of which starts with `user`, the pair `user<x>=<y>` (alone at
/// the end, or followed by `"; "` and more cookies) gives the value `y`, the text
/// after its last `=`, for every `y` with no `=` and no `"; "` in it.
pub proof fn law_user_cookie_found_anywhere(
    qs: Seq<Seq<char>>,
    x: Seq<char>,
    y: Seq<char>,
    rest: Option<Seq<char>>,
)
    requires
        forall|i: int|
            0 <= i < qs.len() ==> !(#[trigger] qs[i].len() >= 4 && qs[i][0] == 'u' && qs[i][1] == 's'
                && qs[i][2] == 'e' && qs[i][3] == 'r'),
        forall|i: int, j: int|
            0 <= i < qs.len() && 0 <= j < qs[i].len() - 1 ==> !(#[trigger] qs[i][j] == ';' && qs[i][j + 1] == ' '),
        forall|j: int| 0 <= j < x.len() - 1 ==> !(#[trigger] x[j] == ';' && x[j + 1] == ' '),
        forall|j: int| 0 <= j < y.len() - 1 ==> !(#[trigger] y[j] == ';' && y[j + 1] == ' '),
        forall|i: int| 0 <= i < y.len() ==> y[i] != '=',
    ensures
        user_cookie_value(cookies_before(qs, match rest {
            Some(r) => seq!['u', 's', 'e', 'r'] + x + seq!['='] + y + seq![';', ' '] + r,
            None => seq!['u', 's', 'e', 'r'] + x + seq!['='] + y,
        })) == Some(y),
{
    assert forall|i: int| 0 <= i < qs.len() implies !starts_with_user(#[trigger] qs[i]) && no_separator(qs[i]) by {
        assert forall|j: int| 0 <= j < qs[i].len() implies !separator_at(qs[i], j) by {
            if j + 1 < qs[i].len() {
                assert(!(qs[i][j] == ';' && qs[i][j + 1] == ' '));
            }
        }
    }
    assert forall|j: int| 0 <= j < x.len() implies !separator_at(x, j) by {
        if j + 1 < x.len() {
            assert(!(x[j] == ';' && x[j + 1] == ' '));
        }
    }
    assert forall|j: int| 0 <= j < y.len() implies !separator_at(y, j) by {
        if j + 1 < y.len() {
            assert(!(y[j] == ';' && y[j + 1] == ' '));
        }
    }
    let u = seq!['u', 's', 'e', 'r'];
    let ux = u + x;
    let uxe = ux + seq!['='];
    let pair = uxe + y;
    assert(no_separator(u));
    assert(no_separator(seq!['=']));
    lemma_no_separator_concat(u, x);
    lemma_no_separator_concat(ux, seq!['=']);
    lemma_no_separator_concat(uxe, y);
    let t = match rest {
        Some(r) => pair + seq![';', ' '] + r,
        None => pair,
    };
    let n = pair.len() as int;
    assert forall|j: int| 0 <= j < n implies !separator_at(t, j) by {
        if j + 1 < n {
            assert(t[j] == pair[j] && t[j + 1] == pair[j + 1]);
            assert(!separator_at(pair, j));
        } else if rest is Some {
            assert(t[j + 1] == ';');
        } else {
            assert(t =~= pair);
        }
    }
    if rest is Some {
        assert(separator_at(t, n));
    } else {
        assert(t =~= pair);
    }
    lemma_no_separator_before(t, 0, n);
    assert(t.subrange(0, n) =~= pair);
    assert(starts_with_user(pair));
    lemma_after_last_equals_tail(ux, y);
    assert(ux.push('=') + y =~= pair);
    lemma_skip_other_pairs(qs, t);
}

/// The session cookie that is written reads back as what was stored: the
/// `Set-Cookie` value `user=<p>; path=/; HttpOnly`, read as a cookie header,
/// gives `p`, for every `p` with no `=` and no `"; "` in it.
pub proof fn law_written_cookie_reads_back(p: Seq<char>)
    requires
        forall|j: int| 0 <= j < p.len() - 1 ==> !(#[trigger] p[j] == ';' && p[j + 1] == ' '),
        forall|i: int| 0 <= i < p.len() ==> p[i] != '=',
    ensures
        user_cookie_value("user="@ + p + "; path=/; HttpOnly"@) == Some(p),
{
    reveal_strlit("user=");
    reveal_strlit("; path=/; HttpOnly");
    let r = seq!['p', 'a', 't', 'h', '=', '/', ';', ' ', 'H', 't', 't', 'p', 'O', 'n', 'l', 'y'];
    assert("; path=/; HttpOnly"@ =~= seq![';', ' '] + r);
    law_user_cookie_found_anywhere(Seq::empty(), Seq::empty(), p, Some(r));
    assert(cookies_before(Seq::<Seq<char>>::empty(), seq!['u', 's', 'e', 'r'] + Seq::<char>::empty()
        + seq!['='] + p + seq![';', ' '] + r) =~= "user="@ + p + "; path=/; HttpOnly"@);
}

} // verus!
