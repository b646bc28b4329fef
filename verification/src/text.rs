use vstd::prelude::*;
use vstd::string::*;

verus! {

/// The character of the decimal digit `d` (`0 <= d < 10`).
pub open spec fn digit_char(d: int) -> char {
    (48 + d) as char
}

/// The decimal digits of `n`, most significant first, without leading zeros.
pub open spec fn nat_digits(n: nat) -> Seq<char>
    decreases n,
{
    if n < 10 {
        seq![digit_char(n as int)]
    } else {
        nat_digits(n / 10).push(digit_char((n % 10) as int))
    }
}

/// The decimal text of `n`: a `-` before the digits of a negative number.
pub open spec fn decimal_text(n: int) -> Seq<char> {
    if n < 0 {
        seq!['-'] + nat_digits((-n) as nat)
    } else {
        nat_digits(n as nat)
    }
}

fn digit_str(d: u8) -> (s: &'static str)
    requires
        d < 10,
    ensures
        s@ == seq![digit_char(d as int)],
{
    match d {
        0 => { proof { reveal_strlit("0"); } "0" },
        1 => { proof { reveal_strlit("1"); } "1" },
        2 => { proof { reveal_strlit("2"); } "2" },
        3 => { proof { reveal_strlit("3"); } "3" },
        4 => { proof { reveal_strlit("4"); } "4" },
        5 => { proof { reveal_strlit("5"); } "5" },
        6 => { proof { reveal_strlit("6"); } "6" },
        7 => { proof { reveal_strlit("7"); } "7" },
        8 => { proof { reveal_strlit("8"); } "8" },
        _ => { proof { reveal_strlit("9"); } "9" },
    }
}

/// The decimal text of `n`, as `n.to_string()` writes it.
pub fn i64_to_decimal(n: i64) -> (s: String)
    ensures
        s@ == decimal_text(n as int),
{
    let mag: u64 = if n < 0 { (0i128 - n as i128) as u64 } else { n as u64 };
    let ghost magn: nat = if n < 0 { (-(n as int)) as nat } else { n as nat };
    assert(mag == magn);
    let mut m: u64 = mag;
    let mut ds: Vec<u8> = Vec::new();
    while m >= 10
        invariant
            nat_digits(magn) == nat_digits(m as nat) + ds@.map_values(|d: u8| digit_char(d as int)),
            forall|i: int| 0 <= i < ds@.len() ==> ds@[i] < 10,
        decreases m,
    {
        let d: u8 = (m % 10) as u8;
        let ghost old_ds = ds@;
        ds.insert(0, d);
        assert(ds@.map_values(|d: u8| digit_char(d as int)) =~= seq![digit_char(d as int)]
            + old_ds.map_values(|d: u8| digit_char(d as int)));
        m = m / 10;
    }
    let ghost old_ds = ds@;
    ds.insert(0, m as u8);
    assert(ds@.map_values(|d: u8| digit_char(d as int)) =~= seq![digit_char(m as int)]
        + old_ds.map_values(|d: u8| digit_char(d as int)));
    let ghost digits = ds@.map_values(|d: u8| digit_char(d as int));
    assert(digits =~= nat_digits(magn));
    let mut s = String::new();
    if n < 0 {
        proof { reveal_strlit("-"); }
        s.append("-");
    }
    let ghost prefix = s@;
    let mut i: usize = 0;
    while i < ds.len()
        invariant
            i <= ds@.len(),
            digits == ds@.map_values(|d: u8| digit_char(d as int)),
            forall|k: int| 0 <= k < ds@.len() ==> ds@[k] < 10,
            s@ == prefix + digits.take(i as int),
        decreases ds@.len() - i,
    {
        let d = digit_str(ds[i]);
        s.append(d);
        assert(digits.take(i as int + 1) =~= digits.take(i as int).push(digit_char(ds@[i as int] as int)));
        i = i + 1;
    }
    assert(digits.take(ds@.len() as int) =~= digits);
    s
}


/// Whether `a` and `b` are the same text.
pub fn same_text(a: &str, b: &str) -> (r: bool)
    ensures
        r == (a@ == b@),
{
    let x = chars_of(a);
    let y = chars_of(b);
    if x.len() != y.len() {
        return false;
    }
    let mut i: usize = 0;
    while i < x.len()
        invariant
            x@ == a@,
            y@ == b@,
            x@.len() == y@.len(),
            i <= x@.len(),
            forall|k: int| 0 <= k < i ==> x@[k] == y@[k],
        decreases x@.len() - i,
    {
        if x[i] != y[i] {
            return false;
        }
        i = i + 1;
    }
    assert(x@ =~= y@);
    true
}

/// Whether `c` is an ASCII decimal digit.
pub open spec fn is_digit(c: char) -> bool {
    '0' <= c <= '9'
}

/// The value of a run of decimal digits, most significant first.
pub open spec fn digits_value(s: Seq<char>) -> int
    decreases s.len(),
{
    if s.len() == 0 {
        0
    } else {
        digits_value(s.drop_last()) * 10 + (s.last() as int - 48)
    }
}

/// The integer that `s` writes: an optional `+` or `-`, then at least one
/// decimal digit and nothing else.
pub open spec fn integer_text_value(s: Seq<char>) -> Option<int> {
    let negative = s.len() > 0 && s[0] == '-';
    let body = if s.len() > 0 && (s[0] == '-' || s[0] == '+') { s.skip(1) } else { s };
    if body.len() > 0 && all_digits(body) {
        Some(if negative { -digits_value(body) } else { digits_value(body) })
    } else {
        None
    }
}

/// What `s.parse::<i64>()` gives: the value of the text when it is an integer
/// that fits in an `i64`, `None` otherwise.
pub open spec fn parse_i64_spec(s: Seq<char>) -> Option<i64> {
    match integer_text_value(s) {
        Some(v) => if i64::MIN <= v <= i64::MAX { Some(v as i64) } else { None },
        None => None,
    }
}

/// The characters of `s`, one by one.
pub fn chars_of(s: &str) -> (v: Vec<char>)
    ensures
        v@ == s@,
{
    let n = s.unicode_len();
    let mut v: Vec<char> = Vec::new();
    let mut i: usize = 0;
    while i < n
        invariant
            n == s@.len(),
            i <= n,
            v@ == s@.take(i as int),
        decreases n - i,
    {
        let c = s.get_char(i);
        v.push(c);
        assert(s@.take(i as int + 1) =~= s@.take(i as int).push(c));
        i = i + 1;
    }
    assert(s@.take(n as int) =~= s@);
    v
}

proof fn lemma_digits_value_nonneg(s: Seq<char>)
    requires
        forall|i: int| 0 <= i < s.len() ==> is_digit(#[trigger] s[i]),
    ensures
        digits_value(s) >= 0,
    decreases s.len(),
{
    if s.len() > 0 {
        lemma_digits_value_nonneg(s.drop_last());
    }
}

proof fn lemma_digits_value_grows(s: Seq<char>, k: int)
    requires
        0 <= k <= s.len(),
        all_digits(s),
    ensures
        digits_value(s.take(k)) <= digits_value(s),
    decreases s.len() - k,
{
    if k < s.len() {
        lemma_digits_value_grows(s, k + 1);
        assert(s.take(k + 1).drop_last() =~= s.take(k));
        lemma_digits_value_nonneg(s.take(k));
    } else {
        assert(s.take(k) =~= s);
    }
}

/// Whether every character of `s` is a decimal digit.
pub open spec fn all_digits(s: Seq<char>) -> bool {
    forall|i: int| 0 <= i < s.len() ==> is_digit(#[trigger] s[i])
}

/// Reads the run of digits `cs[start..]`, giving up once its value passes 2^63.
fn digit_run_value(cs: &Vec<char>, start: usize) -> (r: Option<u64>)
    requires
        start <= cs@.len(),
    ensures
        ({
            let body = cs@.subrange(start as int, cs@.len() as int);
            match r {
                Some(v) => all_digits(body) && v == digits_value(body) && v <= 9223372036854775808u64,
                None => !all_digits(body) || digits_value(body) > 9223372036854775808u64,
            }
        }),
{
    let n = cs.len();
    let ghost body = cs@.subrange(start as int, n as int);
    let mut acc: u64 = 0;
    let mut i: usize = start;
    while i < n
        invariant
            n == cs@.len(),
            start <= i <= n,
            body == cs@.subrange(start as int, n as int),
            all_digits(body.take(i - start)),
            acc == digits_value(body.take(i - start)),
            acc <= 9223372036854775808u64,
        decreases n - i,
    {
        let c = cs[i];
        let ghost k = i - start;
        assert(body[k] == c);
        if !('0' <= c && c <= '9') {
            return None;
        }
        let d: u64 = (c as u32 - 48u32) as u64;
        let ghost next = body.take(k + 1);
        assert(next.drop_last() =~= body.take(k));
        assert(next.last() == c);
        assert(all_digits(next));
        if acc > 922337203685477580u64 || (acc == 922337203685477580u64 && d > 8) {
            proof {
                if all_digits(body) {
                    lemma_digits_value_grows(body, k + 1);
                }
            }
            return None;
        }
        acc = acc * 10 + d;
        i = i + 1;
    }
    assert(body.take(n - start) =~= body);
    Some(acc)
}

/// The `i64` that `s` writes, as `s.parse::<i64>().ok()` reads it.
pub fn parse_i64(s: &str) -> (r: Option<i64>)
    ensures
        r == parse_i64_spec(s@),
{
    let cs = chars_of(s);
    let n = cs.len();
    if n == 0 {
        return None;
    }
    let negative = cs[0] == '-';
    let start: usize = if cs[0] == '-' || cs[0] == '+' { 1 } else { 0 };
    let ghost body = if s@[0] == '-' || s@[0] == '+' { s@.skip(1) } else { s@ };
    assert(body =~= cs@.subrange(start as int, n as int));
    if start == n {
        return None;
    }
    match digit_run_value(&cs, start) {
        None => None,
        Some(v) => {
            if negative {
                Some((0i128 - v as i128) as i64)
            } else if v <= 9223372036854775807u64 {
                Some(v as i64)
            } else {
                None
            }
        },
    }
}

proof fn lemma_nat_digits_read_back(m: nat)
    ensures
        nat_digits(m).len() > 0,
        all_digits(nat_digits(m)),
        digits_value(nat_digits(m)) == m,
    decreases m,
{
    let d = nat_digits(m);
    if m < 10 {
        assert(d.drop_last() =~= Seq::<char>::empty());
        assert(d.last() as int == 48 + m);
        assert(digits_value(d.drop_last()) == 0);
        assert(digits_value(d) == digits_value(d.drop_last()) * 10 + (d.last() as int - 48));
    } else {
        lemma_nat_digits_read_back(m / 10);
        assert(d.drop_last() =~= nat_digits(m / 10));
        assert(d.last() as int == 48 + m % 10);
        assert(m == (m / 10) * 10 + m % 10) by (nonlinear_arith);
        assert(digits_value(d) == digits_value(d.drop_last()) * 10 + (d.last() as int - 48));
        assert forall|i: int| 0 <= i < d.len() implies is_digit(#[trigger] d[i]) by {
            if i < d.len() - 1 {
                assert(d[i] == nat_digits(m / 10)[i]);
            }
        }
    }
}

/// Reading back the decimal text of an `i64` gives the same number:
/// `n.to_string().parse::<i64>()` is `Ok(n)` for every `n`.
pub proof fn law_decimal_round_trip(n: i64)
    ensures
        parse_i64_spec(decimal_text(n as int)) == Some(n),
{
    let t = decimal_text(n as int);
    if n < 0 {
        let m = (-(n as int)) as nat;
        lemma_nat_digits_read_back(m);
        assert(t.skip(1) =~= nat_digits(m));
    } else {
        lemma_nat_digits_read_back(n as nat);
        assert(is_digit(t[0]));
    }
}

proof fn lemma_nat_digits_leading(m: nat)
    ensures
        nat_digits(m)[0] == '0' ==> m == 0 && nat_digits(m).len() == 1,
        is_digit(nat_digits(m)[0]),
    decreases m,
{
    if m >= 10 {
        lemma_nat_digits_leading(m / 10);
        lemma_nat_digits_read_back(m / 10);
        assert(nat_digits(m)[0] == nat_digits(m / 10)[0]);
    }
}

/// The decimal text is the canonical one: it starts with `-` exactly for a
/// negative number, the rest is a non-empty run of digits, and it has no
/// leading zero unless the number is 0, written `0`.
pub proof fn law_decimal_text_canonical(n: i64)
    ensures
        decimal_text(n as int).len() > 0,
        (decimal_text(n as int)[0] == '-') == (n < 0),
        n < 0 ==> decimal_text(n as int).len() >= 2 && all_digits(decimal_text(n as int).skip(1))
            && decimal_text(n as int)[1] != '0',
        n >= 0 ==> all_digits(decimal_text(n as int)),
        n >= 0 ==> (decimal_text(n as int)[0] == '0' <==> n == 0),
        n == 0 ==> decimal_text(n as int) == seq!['0'],
{
    let t = decimal_text(n as int);
    if n < 0 {
        let m = (-(n as int)) as nat;
        lemma_nat_digits_read_back(m);
        lemma_nat_digits_leading(m);
        assert(t.skip(1) =~= nat_digits(m));
        assert(t[1] == nat_digits(m)[0]);
    } else {
        lemma_nat_digits_read_back(n as nat);
        lemma_nat_digits_leading(n as nat);
        if n == 0 {
            assert(t =~= seq!['0']);
        }
    }
}

/// Only integer text is read: whatever reads as an `i64` is a digit, or a
/// `+` or `-` followed by at least one digit, and then digits only; spaces,
/// points, letters and empty text never read as a number.
pub proof fn law_parse_shape(s: Seq<char>)
    ensures
        parse_i64_spec(s) is Some ==> {
            &&& s.len() > 0
            &&& forall|i: int| 1 <= i < s.len() ==> is_digit(#[trigger] s[i])
            &&& is_digit(s[0]) || ((s[0] == '-' || s[0] == '+') && s.len() >= 2)
        },
{
    if parse_i64_spec(s) is Some {
        let body = if s.len() > 0 && (s[0] == '-' || s[0] == '+') { s.skip(1) } else { s };
        assert forall|i: int| 1 <= i < s.len() implies is_digit(#[trigger] s[i]) by {
            if s[0] == '-' || s[0] == '+' {
                assert(s[i] == body[i - 1]);
            } else {
                assert(s[i] == body[i]);
            }
        }
        if !(s[0] == '-' || s[0] == '+') {
            assert(s[0] == body[0]);
        }
    }
}

/// Reading is positional: one digit reads as itself, an optional `+` changes
/// nothing, and appending a digit `d` to a text that reads as `v` gives
/// `10 * v + d` (`10 * v - d` after a `-`) while that fits in an `i64`.
pub proof fn law_parse_digits(s: Seq<char>, v: i64, d: int)
    requires
        0 <= d < 10,
    ensures
        parse_i64_spec(seq![digit_char(d)]) == Some(d as i64),
        parse_i64_spec(seq!['+', digit_char(d)]) == Some(d as i64),
        parse_i64_spec(s) == Some(v) && s[0] != '-' && v * 10 + d <= i64::MAX
            ==> parse_i64_spec(s.push(digit_char(d))) == Some((v * 10 + d) as i64),
        parse_i64_spec(s) == Some(v) && s[0] == '-' && v * 10 - d >= i64::MIN
            ==> parse_i64_spec(s.push(digit_char(d))) == Some((v * 10 - d) as i64),
{
    let one = seq![digit_char(d)];
    assert(one.drop_last() =~= Seq::<char>::empty());
    assert(digits_value(one.drop_last()) == 0);
    assert(digits_value(one) == d);
    assert(all_digits(one));
    let plus = seq!['+', digit_char(d)];
    assert(plus.skip(1) =~= one);
    if parse_i64_spec(s) == Some(v) {
        let c = digit_char(d);
        let t = s.push(c);
        let signed = s[0] == '-' || s[0] == '+';
        let body = if signed { s.skip(1) } else { s };
        let body2 = if signed { t.skip(1) } else { t };
        assert(t[0] == s[0]);
        assert(body2 =~= body.push(c));
        assert(body2.drop_last() =~= body);
        assert(all_digits(body2)) by {
            assert forall|i: int| 0 <= i < body2.len() implies is_digit(#[trigger] body2[i]) by {
                if i < body.len() {
                    assert(body2[i] == body[i]);
                }
            }
        }
        assert(c as int == 48 + d);
        assert(body2.last() == c);
        assert(digits_value(body2) == digits_value(body) * 10 + d);
        lemma_digits_value_nonneg(body);
        if s[0] == '-' {
            assert(v == -digits_value(body));
        } else {
            assert(v == digits_value(body));
        }
    }
}

} // verus!
