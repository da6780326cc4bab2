//! Character-level text helpers with their specifications.

use vstd::prelude::*;

verus! {

/// Append one character to a string.
#[verifier::external_body]
pub(crate) fn push_char(s: &mut String, c: char)
    ensures
        final(s)@ == old(s)@.push(c),
{
    s.push(c);
}

/// The characters of a string slice, in order.
pub fn chars_of(s: &str) -> (v: Vec<char>)
    ensures
        v@ == s@,
{
    let mut v: Vec<char> = Vec::new();
    for c in it: s.chars()
        invariant
            v@ == it.seq().take(it.index() as int),
    {
        v.push(c);
    }
    v
}

} // verus!

verus! {

/// Unicode `White_Space`, the set that `char::is_whitespace` and `str::trim`
/// use.
pub open spec fn is_ws(c: char) -> bool {
    ('\u{9}' <= c && c <= '\u{d}') || c == ' ' || c == '\u{85}' || c == '\u{a0}' || c
        == '\u{1680}' || ('\u{2000}' <= c && c <= '\u{200a}') || c == '\u{2028}' || c
        == '\u{2029}' || c == '\u{202f}' || c == '\u{205f}' || c == '\u{3000}'
}

/// Whether `c` is Unicode white space.
pub fn is_whitespace(c: char) -> (b: bool)
    ensures
        b == is_ws(c),
{
    ('\u{9}' <= c && c <= '\u{d}') || c == ' ' || c == '\u{85}' || c == '\u{a0}' || c
        == '\u{1680}' || ('\u{2000}' <= c && c <= '\u{200a}') || c == '\u{2028}' || c
        == '\u{2029}' || c == '\u{202f}' || c == '\u{205f}' || c == '\u{3000}'
}

/// `s` without its leading white space.
pub open spec fn trim_start(s: Seq<char>) -> Seq<char>
    decreases s.len(),
{
    if s.len() > 0 && is_ws(s[0]) {
        trim_start(s.drop_first())
    } else {
        s
    }
}

/// `s` without its trailing white space.
pub open spec fn trim_end(s: Seq<char>) -> Seq<char>
    decreases s.len(),
{
    if s.len() > 0 && is_ws(s.last()) {
        trim_end(s.drop_last())
    } else {
        s
    }
}

/// `s` without leading and trailing white space, as `str::trim` returns it.
pub open spec fn trim(s: Seq<char>) -> Seq<char> {
    trim_end(trim_start(s))
}

proof fn lemma_trim_start_skip(s: Seq<char>, i: int)
    requires
        0 <= i <= s.len(),
        forall|j: int| 0 <= j < i ==> is_ws(#[trigger] s[j]),
    ensures
        trim_start(s) == trim_start(s.skip(i)),
    decreases i,
{
    if i > 0 {
        assert(s.drop_first() =~= s.skip(1));
        lemma_trim_start_skip(s.drop_first(), i - 1);
        assert(s.drop_first().skip(i - 1) =~= s.skip(i));
    } else {
        assert(s.skip(0) =~= s);
    }
}

proof fn lemma_trim_end_take(s: Seq<char>, i: int)
    requires
        0 <= i <= s.len(),
        forall|j: int| i <= j < s.len() ==> is_ws(#[trigger] s[j]),
    ensures
        trim_end(s) == trim_end(s.take(i)),
    decreases s.len() - i,
{
    if i < s.len() {
        lemma_trim_end_take(s.drop_last(), i);
        assert(s.drop_last().take(i) =~= s.take(i));
    } else {
        assert(s.take(i) =~= s);
    }
}

/// The bounds `[a, b)` of `trim(s)` within `s`.
pub fn trim_bounds(s: &Vec<char>) -> (r: (usize, usize))
    ensures
        r.0 <= r.1 <= s@.len(),
        s@.subrange(r.0 as int, r.1 as int) == trim(s@),
{
    let mut a: usize = 0;
    while a < s.len() && is_whitespace(s[a])
        invariant
            a <= s@.len(),
            forall|j: int| 0 <= j < a ==> is_ws(#[trigger] s@[j]),
        decreases s@.len() - a,
    {
        a = a + 1;
    }
    proof {
        lemma_trim_start_skip(s@, a as int);
        assert(trim_start(s@.skip(a as int)) == s@.skip(a as int));
    }
    let mut b: usize = s.len();
    while b > a && is_whitespace(s[b - 1])
        invariant
            a <= b <= s@.len(),
            forall|j: int| b <= j < s@.len() ==> is_ws(#[trigger] s@[j]),
        decreases b,
    {
        b = b - 1;
    }
    proof {
        let t = s@.skip(a as int);
        assert forall|j: int| b - a <= j < t.len() implies is_ws(#[trigger] t[j]) by {
            assert(t[j] == s@[j + a]);
        }
        lemma_trim_end_take(t, b - a);
        assert(t.take(b - a) =~= s@.subrange(a as int, b as int));
        if b > a {
            assert(t.take(b - a).last() == s@[b - 1]);
        }
    }
    (a, b)
}

/// The pieces of `s` between `'\n'` characters, as `str::split('\n')`
/// yields them (at least one piece).
pub open spec fn split_nl(s: Seq<char>) -> Seq<Seq<char>>
    decreases s.len(),
{
    if s.len() == 0 {
        seq![Seq::<char>::empty()]
    } else {
        let r = split_nl(s.drop_first());
        if s[0] == '\n' {
            seq![Seq::<char>::empty()] + r
        } else {
            r.update(0, seq![s[0]] + r[0])
        }
    }
}

proof fn lemma_split_nl_nonempty(s: Seq<char>)
    ensures
        split_nl(s).len() >= 1,
    decreases s.len(),
{
    if s.len() > 0 {
        lemma_split_nl_nonempty(s.drop_first());
    }
}

/// Extending `s` by one character extends its last piece, or starts a new
/// piece at a newline.
proof fn lemma_split_nl_push(s: Seq<char>, c: char)
    ensures
        split_nl(s.push(c)) == (if c == '\n' {
            split_nl(s).push(Seq::<char>::empty())
        } else {
            split_nl(s).update(split_nl(s).len() - 1, split_nl(s).last().push(c))
        }),
    decreases s.len(),
{
    lemma_split_nl_nonempty(s);
    if s.len() == 0 {
        reveal_with_fuel(split_nl, 2);
        assert(s.push(c).drop_first() =~= Seq::<char>::empty());
        assert(split_nl(s) == seq![Seq::<char>::empty()]);
        if c == '\n' {
            assert(split_nl(s.push(c)) =~= split_nl(s).push(Seq::<char>::empty()));
        } else {
            assert(split_nl(s.push(c)) =~= split_nl(s).update(0, seq![c]));
            assert(split_nl(s).last().push(c) =~= seq![c]);
        }
    } else {
        let t = s.drop_first();
        assert(s.push(c).drop_first() =~= t.push(c));
        lemma_split_nl_push(t, c);
        lemma_split_nl_nonempty(t);
        let rt = split_nl(t);
        if s[0] == '\n' {
            if c == '\n' {
                assert(split_nl(s.push(c)) =~= split_nl(s).push(Seq::<char>::empty()));
            } else {
                assert(split_nl(s.push(c)) =~= split_nl(s).update(split_nl(s).len() - 1, split_nl(s).last().push(c)));
            }
        } else {
            if c == '\n' {
                assert(split_nl(s.push(c)) =~= split_nl(s).push(Seq::<char>::empty()));
            } else {
                if rt.len() == 1 {
                    assert(split_nl(s.push(c))[0] =~= seq![s[0]] + rt[0].push(c));
                    assert(split_nl(s).last().push(c) =~= seq![s[0]] + rt[0].push(c));
                }
                assert(split_nl(s.push(c)) =~= split_nl(s).update(split_nl(s).len() - 1, split_nl(s).last().push(c)));
            }
        }
    }
}

/// A piece without one trailing `'\r'`, as `str::lines` leaves it.
pub open spec fn strip_cr(s: Seq<char>) -> Seq<char> {
    if s.len() > 0 && s.last() == '\r' {
        s.drop_last()
    } else {
        s
    }
}

/// The lines of a text that does not end with a line break: no line for an
/// empty text, else the pieces between `'\n'` without a trailing `'\r'`.
pub open spec fn lines_of(s: Seq<char>) -> Seq<Seq<char>> {
    if s.len() == 0 {
        Seq::empty()
    } else {
        split_nl(s).map_values(|l: Seq<char>| strip_cr(l))
    }
}

/// The end of `v[0..]` without one trailing `'\r'`.
pub fn strip_cr_end(v: &Vec<char>) -> (e: usize)
    ensures
        e <= v@.len(),
        v@.subrange(0, e as int) == strip_cr(v@),
{
    if v.len() > 0 && v[v.len() - 1] == '\r' {
        proof {
            assert(v@.subrange(0, v@.len() - 1) =~= v@.drop_last());
        }
        v.len() - 1
    } else {
        proof {
            assert(v@.subrange(0, v@.len() as int) =~= v@);
        }
        v.len()
    }
}

/// The pieces of `s[a..b]` between newlines, as character vectors.
pub fn split_newlines(s: &Vec<char>, a: usize, b: usize) -> (v: Vec<Vec<char>>)
    requires
        a <= b <= s@.len(),
    ensures
        v@.len() >= 1,
        v@.len() == split_nl(s@.subrange(a as int, b as int)).len(),
        forall|i: int| 0 <= i < v@.len() ==> (#[trigger] v@[i])@ == split_nl(s@.subrange(a as int, b as int))[i],
{
    let mut v: Vec<Vec<char>> = Vec::new();
    let mut cur: Vec<char> = Vec::new();
    let mut i = a;
    proof {
        assert(s@.subrange(a as int, a as int) =~= Seq::<char>::empty());
    }
    while i < b
        invariant
            a <= i <= b <= s@.len(),
            v@.len() + 1 == split_nl(s@.subrange(a as int, i as int)).len(),
            forall|k: int| 0 <= k < v@.len() ==> (#[trigger] v@[k])@ == split_nl(s@.subrange(a as int, i as int))[k],
            cur@ == split_nl(s@.subrange(a as int, i as int)).last(),
        decreases b - i,
    {
        let c = s[i];
        proof {
            assert(s@.subrange(a as int, i + 1) =~= s@.subrange(a as int, i as int).push(c));
            lemma_split_nl_push(s@.subrange(a as int, i as int), c);
        }
        if c == '\n' {
            let done = cur;
            v.push(done);
            cur = Vec::new();
        } else {
            cur.push(c);
        }
        i = i + 1;
    }
    v.push(cur);
    proof {
        lemma_split_nl_nonempty(s@.subrange(a as int, b as int));
        assert forall|k: int| 0 <= k < v@.len() implies (#[trigger] v@[k])@ == split_nl(s@.subrange(a as int, b as int))[k] by {
        }
    }
    v
}

/// The value of a string of decimal digits.
pub open spec fn digits_value(d: Seq<char>) -> nat
    decreases d.len(),
{
    if d.len() == 0 {
        0
    } else {
        digits_value(d.drop_last()) * 10 + ((d.last() as nat) - ('0' as nat)) as nat
    }
}

pub open spec fn all_digits(d: Seq<char>) -> bool {
    forall|i: int| 0 <= i < d.len() ==> '0' <= #[trigger] d[i] && d[i] <= '9'
}

/// The digits of a number as `u32::from_str` reads them: an optional `'+'`,
/// then at least one decimal digit.
pub open spec fn number_digits(s: Seq<char>) -> Seq<char> {
    if s.len() > 0 && s[0] == '+' {
        s.drop_first()
    } else {
        s
    }
}

/// What `u32::from_str` returns for `s`: the value when `s` is an optional
/// `'+'` and one or more decimal digits whose value fits in a `u32`.
pub open spec fn parse_u32_spec(s: Seq<char>) -> Option<u32> {
    let d = number_digits(s);
    if d.len() > 0 && all_digits(d) && digits_value(d) <= u32::MAX {
        Some(digits_value(d) as u32)
    } else {
        None
    }
}

proof fn lemma_digits_value_monotone(d: Seq<char>, i: int)
    requires
        0 <= i <= d.len(),
        all_digits(d),
    ensures
        digits_value(d.take(i)) <= digits_value(d),
    decreases d.len() - i,
{
    if i < d.len() {
        lemma_digits_value_monotone(d, i + 1);
        assert(d.take(i + 1).drop_last() =~= d.take(i));
    } else {
        assert(d.take(i) =~= d);
    }
}

/// Read a `u32` from `s[a..b]` the way `u32::from_str` does.
pub fn parse_u32(s: &Vec<char>, a: usize, b: usize) -> (r: Option<u32>)
    requires
        a <= b <= s@.len(),
    ensures
        r == parse_u32_spec(s@.subrange(a as int, b as int)),
{
    let ghost t = s@.subrange(a as int, b as int);
    let mut start = a;
    if start < b && s[start] == '+' {
        start = start + 1;
    }
    let ghost d = s@.subrange(start as int, b as int);
    proof {
        assert(d =~= number_digits(t));
    }
    if start == b {
        return None;
    }
    let mut acc: u64 = 0;
    let mut i = start;
    proof {
        assert(d.take(0) =~= Seq::<char>::empty());
    }
    while i < b
        invariant
            a <= start <= i <= b <= s@.len(),
            d == s@.subrange(start as int, b as int),
            d == number_digits(s@.subrange(a as int, b as int)),
            d.len() > 0,
            forall|k: int| 0 <= k < i - start ==> '0' <= #[trigger] d[k] && d[k] <= '9',
            acc == digits_value(d.take(i - start)),
            acc <= u32::MAX,
        decreases b - i,
    {
        let c = s[i];
        if c < '0' || c > '9' {
            proof {
                assert(d[i - start] == c);
                assert(!all_digits(d)) by {
                    if all_digits(d) {
                        assert('0' <= d[i - start] && d[i - start] <= '9');
                    }
                }
            }
            return None;
        }
        proof {
            assert(d.take(i - start + 1).drop_last() =~= d.take(i - start));
            assert(d.take(i - start + 1).last() == c);
        }
        let digit = (c as u32 - '0' as u32) as u64;
        acc = acc * 10 + digit;
        if acc > u32::MAX as u64 {
            proof {
                if all_digits(d) {
                    lemma_digits_value_monotone(d, i - start + 1);
                    assert(digits_value(d) > u32::MAX);
                }
            }
            return None;
        }
        i = i + 1;
    }
    proof {
        assert(d.take(i - start) =~= d);
    }
    Some(acc as u32)
}

/// The decimal digits of `n`, most significant first, without leading zeros
/// (a single `'0'` for zero), as `Display` writes them.
pub open spec fn decimal(n: nat) -> Seq<char>
    decreases n,
{
    if n < 10 {
        seq![(('0' as nat) + n) as char]
    } else {
        decimal(n / 10).push((('0' as nat) + n % 10) as char)
    }
}

proof fn lemma_decimal_parses(n: nat)
    ensures
        decimal(n).len() > 0,
        all_digits(decimal(n)),
        digits_value(decimal(n)) == n,
        decimal(n)[0] != '+',
    decreases n,
{
    let c = (('0' as nat) + n % 10) as char;
    assert((c as nat) == ('0' as nat) + n % 10);
    let d = decimal(n);
    if n >= 10 {
        lemma_decimal_parses(n / 10);
        assert(d.drop_last() =~= decimal(n / 10));
        assert(d.last() == c);
        vstd::arithmetic::div_mod::lemma_fundamental_div_mod(n as int, 10);
        assert(digits_value(d) == digits_value(decimal(n / 10)) * 10 + ((c as nat) - ('0' as nat)) as nat);
        assert(digits_value(d) == (n / 10) * 10 + n % 10) by (nonlinear_arith)
            requires digits_value(d) == digits_value(decimal(n / 10)) * 10 + ((c as nat) - ('0' as nat)) as nat,
                digits_value(decimal(n / 10)) == n / 10,
                (c as nat) == ('0' as nat) + n % 10;
        assert forall|i: int| 0 <= i < d.len() implies '0' <= #[trigger] d[i] && d[i] <= '9' by {
            if i < d.len() - 1 {
                assert(d[i] == decimal(n / 10)[i]);
            }
        }
    } else {
        assert(d.drop_last() =~= Seq::<char>::empty());
        assert(d.last() == c);
        assert(digits_value(d.drop_last()) == 0);
        assert(digits_value(d) == ((c as nat) - ('0' as nat)) as nat);
    }
}

/// The decimal digits of a number are digits, so neither white space, a
/// newline nor a carriage return.
pub proof fn lemma_decimal_digits(n: nat)
    ensures
        decimal(n).len() > 0,
        all_digits(decimal(n)),
        no_newline(decimal(n)),
        !is_ws(decimal(n)[0]),
        decimal(n).last() != '\r',
{
    lemma_decimal_parses(n);
    let d = decimal(n);
    assert('0' <= d[0] && d[0] <= '9');
    assert('0' <= d[d.len() - 1] && d[d.len() - 1] <= '9');
    assert forall|i: int| 0 <= i < d.len() implies #[trigger] d[i] != '\n' by {
        assert('0' <= d[i] && d[i] <= '9');
    }
}

/// `parse_u32_spec` reads back what `decimal` writes.
pub proof fn lemma_parse_decimal(n: u32)
    ensures
        parse_u32_spec(decimal(n as nat)) == Some(n),
{
    lemma_decimal_parses(n as nat);
}

/// Append the decimal digits of `n` to `s`.
pub fn push_decimal(s: &mut String, n: u64)
    ensures
        final(s)@ == old(s)@ + decimal(n as nat),
    decreases n,
{
    if n >= 10 {
        push_decimal(s, n / 10);
    }
    let digit = (n % 10) as u8;
    let c = ('0' as u8 + digit) as char;
    proof {
        assert(c == (('0' as nat) + (n % 10) as nat) as char);
    }
    push_char(s, c);
    proof {
        if n >= 10 {
            assert(old(s)@ + decimal(n as nat) =~= old(s)@ + decimal((n / 10) as nat) + seq![c]);
        } else {
            assert(decimal(n as nat) =~= seq![c]);
        }
    }
}

/// A string holding the characters `s[a..b]`.
pub fn string_of(s: &Vec<char>, a: usize, b: usize) -> (r: String)
    requires
        a <= b <= s@.len(),
    ensures
        r@ == s@.subrange(a as int, b as int),
{
    let mut r = String::new();
    let mut i = a;
    while i < b
        invariant
            a <= i <= b <= s@.len(),
            r@ == s@.subrange(a as int, i as int),
        decreases b - i,
    {
        push_char(&mut r, s[i]);
        proof {
            assert(s@.subrange(a as int, i + 1) =~= s@.subrange(a as int, i as int).push(s@[i as int]));
        }
        i = i + 1;
    }
    r
}

} // verus!

verus! {

/// No `'\n'` in `s`.
pub open spec fn no_newline(s: Seq<char>) -> bool {
    forall|i: int| 0 <= i < s.len() ==> #[trigger] s[i] != '\n'
}

/// A text without newlines is a single piece.
pub proof fn lemma_split_nl_single(a: Seq<char>)
    requires
        no_newline(a),
    ensures
        split_nl(a) == seq![a],
    decreases a.len(),
{
    if a.len() == 0 {
        assert(a =~= Seq::<char>::empty());
        assert(split_nl(a) =~= seq![a]);
    } else {
        let t = a.drop_first();
        assert(no_newline(t)) by {
            assert forall|i: int| 0 <= i < t.len() implies #[trigger] t[i] != '\n' by {
                assert(t[i] == a[i + 1]);
            }
        }
        lemma_split_nl_single(t);
        assert(a[0] != '\n');
        assert(seq![a[0]] + t =~= a);
        assert(split_nl(a) =~= seq![a]);
    }
}

/// A newline after a text without newlines ends the first piece.
pub proof fn lemma_split_nl_concat(a: Seq<char>, b: Seq<char>)
    requires
        no_newline(a),
    ensures
        split_nl(a + seq!['\n'] + b) == seq![a] + split_nl(b),
    decreases a.len(),
{
    let s = a + seq!['\n'] + b;
    if a.len() == 0 {
        assert(a =~= Seq::<char>::empty());
        assert(s.drop_first() =~= b);
        assert(s[0] == '\n');
        assert(split_nl(s) =~= seq![a] + split_nl(b));
    } else {
        let t = a.drop_first();
        assert(no_newline(t)) by {
            assert forall|i: int| 0 <= i < t.len() implies #[trigger] t[i] != '\n' by {
                assert(t[i] == a[i + 1]);
            }
        }
        lemma_split_nl_concat(t, b);
        assert(s.drop_first() =~= t + seq!['\n'] + b);
        assert(s[0] == a[0]);
        assert(a[0] != '\n');
        assert(seq![a[0]] + t =~= a);
        assert(split_nl(s) =~= seq![a] + split_nl(b));
    }
}

/// Trimming leaves a text alone whose first and last characters are not
/// white space.
pub proof fn lemma_trim_identity(s: Seq<char>)
    requires
        s.len() > 0,
        !is_ws(s[0]),
        !is_ws(s.last()),
    ensures
        trim(s) == s,
{
}

/// Trailing white space is removed by trimming.
pub proof fn lemma_trim_end_push_ws(s: Seq<char>, c: char)
    requires
        is_ws(c),
    ensures
        trim_end(s.push(c)) == trim_end(s),
{
    assert(s.push(c).drop_last() =~= s);
}

} // verus!
