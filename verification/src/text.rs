//! Character-level helpers shared by the models and services: digit
//! rendering, string building and path joining.

use vstd::prelude::*;

verus! {

/// The character of digit `d` (`0`-`9`, then lower-case `a`-`f`).
pub open spec fn digit_char(d: nat) -> char {
    if d < 10 {
        ((d + 48) as u8) as char
    } else {
        ((d + 87) as u8) as char
    }
}

/// The digits of `n` in base `base`, most significant first, without
/// leading zeros (zero itself is the single digit `0`).
pub open spec fn base_digits(n: nat, base: nat) -> Seq<char>
    decreases n,
{
    if base < 2 || n < base {
        seq![digit_char(n)]
    } else {
        proof {
            vstd::arithmetic::div_mod::lemma_div_decreases(n as int, base as int);
        }
        base_digits(n / base, base).push(digit_char(n % base))
    }
}

/// Decimal rendering of `n`, as `{}` prints an unsigned integer.
pub open spec fn decimal_text(n: nat) -> Seq<char> {
    base_digits(n, 10)
}

/// Whether `c` is one of the characters `0` to `9`.
pub open spec fn is_decimal_digit(c: char) -> bool {
    48 <= c as int <= 57
}

/// The number a string of decimal digits stands for, read from left to
/// right (each character counts as its code minus that of `0`).
pub open spec fn decimal_value(s: Seq<char>) -> int
    decreases s.len(),
{
    if s.len() == 0 {
        0
    } else {
        decimal_value(s.drop_last()) * 10 + (s.last() as int - 48)
    }
}

/// Law: `decimal_text(n)` is the decimal numeral of `n`: one or more
/// decimal digits, no leading zero unless it is `0` itself, standing for
/// `n`.
pub proof fn lemma_decimal_text(n: nat)
    ensures
        decimal_text(n).len() >= 1,
        forall|i: int| 0 <= i < decimal_text(n).len() ==> is_decimal_digit(#[trigger] decimal_text(n)[i]),
        decimal_text(n).len() > 1 ==> decimal_text(n)[0] != '0',
        decimal_value(decimal_text(n)) == n,
    decreases n,
{
    if n < 10 {
        assert(decimal_text(n) == seq![digit_char(n)]);
        assert(digit_char(n) as int == n + 48);
        assert(decimal_text(n).drop_last() =~= Seq::<char>::empty());
        assert(decimal_value(Seq::<char>::empty()) == 0);
        assert(decimal_value(decimal_text(n)) == decimal_value(decimal_text(n).drop_last()) * 10 + (
        digit_char(n) as int - 48));
    } else {
        let q = n / 10;
        let r = n % 10;
        lemma_decimal_text(q);
        let t = decimal_text(q);
        assert(decimal_text(n) == t.push(digit_char(r)));
        assert(digit_char(r) as int == r + 48);
        assert(t.push(digit_char(r)).drop_last() =~= t);
        assert(n == q * 10 + r);
        assert(decimal_value(decimal_text(n)) == decimal_value(t) * 10 + (digit_char(r) as int - 48));
        assert forall|i: int| 0 <= i < decimal_text(n).len() implies is_decimal_digit(
            #[trigger] decimal_text(n)[i],
        ) by {
            if i < t.len() {
                assert(decimal_text(n)[i] == t[i]);
            }
        }
        assert(decimal_text(n)[0] == t[0]);
        if t.len() == 1 {
            assert(q < 10) by {
                if q >= 10 {
                    assert(base_digits(q, 10).len() == base_digits(q / 10, 10).len() + 1);
                    lemma_decimal_text(q / 10);
                }
            }
            assert(t == seq![digit_char(q)]);
            assert(digit_char(q) as int == q + 48);
        }
    }
}

/// Law: two numbers with the same decimal text are equal.
pub proof fn lemma_decimal_text_injective(a: nat, b: nat)
    requires
        decimal_text(a) == decimal_text(b),
    ensures
        a == b,
{
    lemma_decimal_text(a);
    lemma_decimal_text(b);
}

/// `k` zero characters.
pub open spec fn zeros(k: nat) -> Seq<char> {
    Seq::new(k, |i: int| '0')
}

/// Lower-case hexadecimal rendering of `n`, left-padded with zeros to at
/// least `width` characters, as `{:0width$x}` prints it.
pub open spec fn hex_text(n: nat, width: nat) -> Seq<char> {
    let digits = base_digits(n, 16);
    if digits.len() < width {
        zeros((width - digits.len()) as nat) + digits
    } else {
        digits
    }
}

/// `String::push` from std: appends one character at the end.
#[verifier::external_body]
pub(crate) fn push_char(s: &mut String, c: char)
    ensures
        final(s)@ == old(s)@.push(c),
{
    s.push(c);
}

/// The characters of a text, in order.
pub fn chars_of(s: &str) -> (v: Vec<char>)
    ensures
        v@ == s@,
{
    let mut v: Vec<char> = Vec::new();
    for c in it: s.chars()
        invariant
            v@ == it.seq().take(it.index() as int),
    {
        v.push(c);
    }
    v
}

/// Appends the characters `v[from..to]` to `s`.
pub fn push_chars(s: &mut String, v: &[char], from: usize, to: usize)
    requires
        from <= to <= v@.len(),
    ensures
        final(s)@ == old(s)@ + v@.subrange(from as int, to as int),
{
    let mut i = from;
    while i < to
        invariant
            from <= i <= to <= v@.len(),
            s@ == old(s)@ + v@.subrange(from as int, i as int),
        decreases to - i,
    {
        push_char(s, v[i]);
        assert(v@.subrange(from as int, i + 1) =~= v@.subrange(from as int, i as int).push(v@[i as int]));
        i = i + 1;
    }
}

/// A string holding the characters `v[from..to]`.
pub fn string_of(v: &[char], from: usize, to: usize) -> (s: String)
    requires
        from <= to <= v@.len(),
    ensures
        s@ == v@.subrange(from as int, to as int),
{
    let mut s = String::new();
    push_chars(&mut s, v, from, to);
    assert(Seq::<char>::empty() + v@.subrange(from as int, to as int) =~= v@.subrange(from as int, to as int));
    s
}

fn digit(d: u128) -> (c: char)
    requires
        d < 16,
    ensures
        c == digit_char(d as nat),
{
    if d < 10 {
        ((d as u8) + 48) as char
    } else {
        ((d as u8) + 87) as char
    }
}

/// The digits of `n` in base `base` (2 to 16), most significant first.
pub fn digits_in_base(n: u128, base: u128) -> (v: Vec<char>)
    requires
        2 <= base <= 16,
    ensures
        v@ == base_digits(n as nat, base as nat),
{
    let mut rest = n;
    let mut v: Vec<char> = Vec::new();
    while rest >= base
        invariant
            2 <= base <= 16,
            base_digits(n as nat, base as nat) == base_digits(rest as nat, base as nat) + v@,
        decreases rest,
    {
        let d = digit(rest % base);
        let ghost before = v@;
        proof {
            assert(base_digits(rest as nat, base as nat) == base_digits(
                (rest / base) as nat,
                base as nat,
            ).push(d));
            assert(base_digits((rest / base) as nat, base as nat).push(d) + before =~= base_digits(
                (rest / base) as nat,
                base as nat,
            ) + seq![d].add(before));
        }
        v.insert(0, d);
        assert(v@ =~= seq![d].add(before));
        rest = rest / base;
    }
    let d = digit(rest);
    v.insert(0, d);
    proof {
        assert(base_digits(rest as nat, base as nat) =~= seq![d]);
    }
    v
}

/// Decimal rendering of `n`.
pub fn decimal_string(n: u128) -> (s: String)
    ensures
        s@ == decimal_text(n as nat),
{
    let v = digits_in_base(n, 10);
    string_of(&v, 0, v.len())
}

/// Lower-case hexadecimal rendering of `n`, zero-padded to `width`.
pub fn hex_string(n: u128, width: usize) -> (s: String)
    ensures
        s@ == hex_text(n as nat, width as nat),
{
    let v = digits_in_base(n, 16);
    let mut s = String::new();
    if v.len() < width {
        let pad = width - v.len();
        let mut i: usize = 0;
        while i < pad
            invariant
                i <= pad,
                s@ == zeros(i as nat),
            decreases pad - i,
        {
            push_char(&mut s, '0');
            assert(s@ =~= zeros((i + 1) as nat));
            i = i + 1;
        }
    }
    push_chars(&mut s, &v, 0, v.len());
    assert(v@.subrange(0, v@.len() as int) =~= v@);
    assert(s@ =~= hex_text(n as nat, width as nat));
    s
}

/// Unicode White_Space, which `char::is_whitespace` tests.
pub open spec fn is_white(c: char) -> bool {
    ||| ('\u{9}' <= c && c <= '\u{d}')
    ||| c == ' '
    ||| c == '\u{85}'
    ||| c == '\u{a0}'
    ||| c == '\u{1680}'
    ||| ('\u{2000}' <= c && c <= '\u{200a}')
    ||| c == '\u{2028}'
    ||| c == '\u{2029}'
    ||| c == '\u{202f}'
    ||| c == '\u{205f}'
    ||| c == '\u{3000}'
}

/// Whether `c` is white space.
pub fn is_white_char(c: char) -> (b: bool)
    ensures
        b == is_white(c),
{
    ('\u{9}' <= c && c <= '\u{d}') || c == ' ' || c == '\u{85}' || c == '\u{a0}' || c == '\u{1680}'
        || ('\u{2000}' <= c && c <= '\u{200a}') || c == '\u{2028}' || c == '\u{2029}' || c
        == '\u{202f}' || c == '\u{205f}' || c == '\u{3000}'
}

/// The pieces of `s` between line feeds, as `str::split('\n')` yields
/// them (always at least one piece).
pub open spec fn split_lines(s: Seq<char>) -> Seq<Seq<char>>
    decreases s.len(),
{
    if s.len() == 0 {
        seq![Seq::<char>::empty()]
    } else {
        let prev = split_lines(s.drop_last());
        if s.last() == '\n' {
            prev.push(Seq::<char>::empty())
        } else {
            prev.update(prev.len() - 1, prev.last().push(s.last()))
        }
    }
}

pub proof fn lemma_split_lines_nonempty(s: Seq<char>)
    ensures
        split_lines(s).len() >= 1,
    decreases s.len(),
{
    if s.len() > 0 {
        lemma_split_lines_nonempty(s.drop_last());
    }
}

/// Scan state of `split_whitespace` after reading `s`: the words already
/// ended by white space, and the word being read (empty between words).
pub open spec fn word_scan(s: Seq<char>) -> (Seq<Seq<char>>, Seq<char>)
    decreases s.len(),
{
    if s.len() == 0 {
        (Seq::<Seq<char>>::empty(), Seq::<char>::empty())
    } else {
        let (done, cur) = word_scan(s.drop_last());
        if is_white(s.last()) {
            if cur.len() > 0 {
                (done.push(cur), Seq::<char>::empty())
            } else {
                (done, Seq::<char>::empty())
            }
        } else {
            (done, cur.push(s.last()))
        }
    }
}

/// The maximal runs of non-white characters of `s`, in order, as
/// `str::split_whitespace` yields them.
pub open spec fn words(s: Seq<char>) -> Seq<Seq<char>> {
    let (done, cur) = word_scan(s);
    if cur.len() > 0 {
        done.push(cur)
    } else {
        done
    }
}

/// Whether `pat` occurs in `s` as a contiguous run.
pub open spec fn occurs_in(pat: Seq<char>, s: Seq<char>) -> bool {
    exists|i: int| 0 <= i && i + pat.len() <= s.len() && #[trigger] s.subrange(i, i + pat.len()) == pat
}

/// Whether `v[from..to]` equals `w`.
pub fn chars_equal(v: &[char], from: usize, to: usize, w: &[char]) -> (b: bool)
    requires
        from <= to <= v@.len(),
    ensures
        b == (v@.subrange(from as int, to as int) == w@),
{
    if to - from != w.len() {
        return false;
    }
    let mut k: usize = 0;
    while k < w.len()
        invariant
            from <= to <= v@.len(),
            to - from == w@.len(),
            k <= w@.len(),
            forall|q: int| 0 <= q < k ==> v@[from + q] == w@[q],
        decreases w@.len() - k,
    {
        if v[from + k] != w[k] {
            assert(v@.subrange(from as int, to as int)[k as int] != w@[k as int]);
            return false;
        }
        k = k + 1;
    }
    assert(v@.subrange(from as int, to as int) =~= w@);
    true
}

/// Whether `pat` occurs in `v[from..to]`.
pub fn occurs_between(pat: &[char], v: &[char], from: usize, to: usize) -> (b: bool)
    requires
        from <= to <= v@.len(),
    ensures
        b == occurs_in(pat@, v@.subrange(from as int, to as int)),
{
    let ghost s = v@.subrange(from as int, to as int);
    if pat.len() > to - from {
        assert(!occurs_in(pat@, s));
        return false;
    }
    if pat.len() == 0 {
        assert(s.subrange(0int, 0int + pat@.len()) =~= pat@);
        return true;
    }
    let last = to - pat.len();
    let mut i = from;
    while i <= last
        invariant
            from <= i,
            from <= to <= v@.len(),
            1 <= pat@.len() <= to - from,
            last == to - pat@.len(),
            s == v@.subrange(from as int, to as int),
            forall|q: int|
                0 <= q < i - from ==> #[trigger] s.subrange(q, q + pat@.len()) != pat@,
        decreases last + 1 - i,
    {
        let hit = chars_equal(v, i, i + pat.len(), pat);
        assert(s.subrange(i - from, i - from + pat@.len()) =~= v@.subrange(
            i as int,
            i + pat@.len(),
        ));
        if hit {
            return true;
        }
        i = i + 1;
    }
    assert(!occurs_in(pat@, s)) by {
        if occurs_in(pat@, s) {
            let q = choose|q: int|
                0 <= q && q + pat@.len() <= s.len() && #[trigger] s.subrange(q, q + pat@.len())
                    == pat@;
            assert(q < i - from);
        }
    }
    false
}

/// Number of white-space characters at the start of `s`.
pub open spec fn leading_white(s: Seq<char>) -> nat
    decreases s.len(),
{
    if s.len() > 0 && is_white(s[0]) {
        1 + leading_white(s.drop_first())
    } else {
        0
    }
}

/// Number of white-space characters at the end of `s`.
pub open spec fn trailing_white(s: Seq<char>) -> nat
    decreases s.len(),
{
    if s.len() > 0 && is_white(s.last()) {
        1 + trailing_white(s.drop_last())
    } else {
        0
    }
}

/// `s` without its leading and trailing white space, as `str::trim`
/// returns it.
pub open spec fn trimmed(s: Seq<char>) -> Seq<char> {
    let t = s.skip(leading_white(s) as int);
    t.take(t.len() - trailing_white(t))
}

proof fn lemma_leading_white(s: Seq<char>, i: int)
    requires
        0 <= i <= s.len(),
        forall|k: int| 0 <= k < i ==> is_white(#[trigger] s[k]),
        i == s.len() || !is_white(s[i]),
    ensures
        leading_white(s) == i,
    decreases i,
{
    if i > 0 {
        let t = s.drop_first();
        assert forall|k: int| 0 <= k < i - 1 implies is_white(#[trigger] t[k]) by {
            assert(t[k] == s[k + 1]);
        }
        if i - 1 < t.len() {
            assert(t[i - 1] == s[i]);
        }
        lemma_leading_white(t, i - 1);
    }
}

proof fn lemma_trailing_white(s: Seq<char>, j: int)
    requires
        0 <= j <= s.len(),
        forall|k: int| j <= k < s.len() ==> is_white(#[trigger] s[k]),
        j == 0 || !is_white(s[j - 1]),
    ensures
        trailing_white(s) == s.len() - j,
    decreases s.len() - j,
{
    if j < s.len() {
        let t = s.drop_last();
        assert forall|k: int| j <= k < t.len() implies is_white(#[trigger] t[k]) by {
            assert(t[k] == s[k]);
        }
        if j > 0 {
            assert(t[j - 1] == s[j - 1]);
        }
        lemma_trailing_white(t, j);
    }
}

/// `s` without leading and trailing white space.
pub fn trim_string(s: &str) -> (r: String)
    ensures
        r@ == trimmed(s@),
{
    let v = chars_of(s);
    let n = v.len();
    let mut i: usize = 0;
    while i < n && is_white_char(v[i])
        invariant
            n == v@.len(),
            i <= n,
            forall|k: int| 0 <= k < i ==> is_white(#[trigger] v@[k]),
        decreases n - i,
    {
        i = i + 1;
    }
    proof {
        lemma_leading_white(v@, i as int);
    }
    let ghost t = v@.skip(i as int);
    let mut j: usize = n;
    while j > i && is_white_char(v[j - 1])
        invariant
            n == v@.len(),
            i <= j <= n,
            forall|k: int| j <= k < n ==> is_white(#[trigger] v@[k]),
        decreases j,
    {
        j = j - 1;
    }
    proof {
        assert forall|k: int| j - i <= k < t.len() implies is_white(#[trigger] t[k]) by {
            assert(t[k] == v@[k + i]);
        }
        if j > i {
            assert(t[j - i - 1] == v@[j - 1]);
        }
        lemma_trailing_white(t, j - i);
        assert(t.take(t.len() - trailing_white(t)) =~= v@.subrange(i as int, j as int));
    }
    string_of(v.as_slice(), i, j)
}

} // verus!
