//! Exact decimal numbers for monetary values.
//!
//! Amounts are decoded from text straight into an integer mantissa and a
//! decimal scale, never through a binary floating-point intermediate, so no
//! rounding error can enter.  The mantissa is capped at 96 bits and the
//! scale at 28 digits, matching the range financial feeds use.

use vstd::prelude::*;
use crate::date::{digit, digit_char, digit_val, dval, is_digit, lemma_digit_char_val};

verus! {

/// One more than the largest representable mantissa (2^96).
pub open spec fn mantissa_cap() -> nat {
    0x1000000000000000000000000
}

/// The largest representable scale.
pub open spec fn max_scale() -> nat {
    28
}

/// An exact decimal: `(-1)^negative * mantissa / 10^scale`.
#[derive(Debug, Clone, Copy, PartialEq, Eq, Hash, Structural)]
pub struct Decimal {
    /// Sign; never set on a zero mantissa.
    pub negative: bool,
    /// Unscaled integer value.
    pub mantissa: u128,
    /// Number of fractional digits.
    pub scale: u32,
}

impl Decimal {
    /// The type's invariant: mantissa below 2^96, scale at most 28, and no
    /// negative zero.
    pub open spec fn wf(self) -> bool {
        &&& (self.mantissa as nat) < mantissa_cap()
        &&& self.scale <= max_scale()
        &&& (self.mantissa == 0 ==> !self.negative)
    }
}

/// Whether every character of `s` is a decimal digit.
pub open spec fn all_digits(s: Seq<char>) -> bool {
    forall|i: int| 0 <= i < s.len() ==> is_digit(#[trigger] s[i])
}

/// The number a digit string denotes, most significant digit first.
pub open spec fn digits_val(s: Seq<char>) -> nat
    decreases s.len(),
{
    if s.len() == 0 {
        0
    } else {
        digits_val(s.drop_last()) * 10 + dval(s.last()) as nat
    }
}

/// End of the digit run that starts at `i`: the first position at or after
/// `i` holding a non-digit, or the end of the text.
pub open spec fn digits_end(s: Seq<char>, i: int) -> int
    decreases s.len() - i when 0 <= i <= s.len()
{
    if i < s.len() && is_digit(s[i]) {
        digits_end(s, i + 1)
    } else {
        i
    }
}

/// Basic shape of a digit run.
pub proof fn lemma_digits_end(s: Seq<char>, i: int)
    requires
        0 <= i <= s.len(),
    ensures
        i <= digits_end(s, i) <= s.len(),
        forall|k: int| i <= k < digits_end(s, i) ==> is_digit(#[trigger] s[k]),
        digits_end(s, i) < s.len() ==> !is_digit(s[digits_end(s, i)]),
    decreases s.len() - i,
{
    if i < s.len() && is_digit(s[i]) {
        lemma_digits_end(s, i + 1);
    }
}

/// A scan that stopped at a non-digit after seeing only digits has found
/// the run's end.
pub proof fn lemma_digits_end_is(s: Seq<char>, i: int, j: int)
    requires
        0 <= i <= j <= s.len(),
        forall|k: int| i <= k < j ==> is_digit(#[trigger] s[k]),
        j < s.len() ==> !is_digit(s[j]),
    ensures
        digits_end(s, i) == j,
    decreases j - i,
{
    if i < j {
        lemma_digits_end_is(s, i + 1, j);
    }
}

/// The sign-stripped remainder of a decimal text, with its sign.
pub open spec fn sign_split(s: Seq<char>) -> (bool, Seq<char>) {
    if s.len() > 0 && s[0] == '-' {
        (true, s.skip(1))
    } else if s.len() > 0 && s[0] == '+' {
        (false, s.skip(1))
    } else {
        (false, s)
    }
}

/// The digit characters of a sign-stripped decimal body together with its
/// scale, or `None` when the body is not `digits [ '.' digits ]` with at
/// least one digit: the integer digits concatenated with the fraction
/// digits, and the fraction's length.
pub open spec fn body_digits(b: Seq<char>) -> Option<(Seq<char>, int)> {
    let e1 = digits_end(b, 0);
    if e1 == b.len() {
        if b.len() >= 1 {
            Some((b, 0))
        } else {
            None
        }
    } else if b[e1] == '.' {
        let e2 = digits_end(b, e1 + 1);
        if e2 == b.len() && b.len() >= 2 {
            Some((b.take(e1) + b.skip(e1 + 1), b.len() - e1 - 1))
        } else {
            None
        }
    } else {
        None
    }
}

/// What the decimal decoder returns on `s`: optional sign, digits with at
/// most one point and at least one digit; the digit string must fit the
/// 96-bit mantissa and the fraction the 28-digit scale, else the text is
/// rejected.
pub open spec fn spec_parse_decimal(s: Seq<char>) -> Option<Decimal> {
    let (neg, b) = sign_split(s);
    match body_digits(b) {
        None => None,
        Some((ds, sc)) => {
            let v = digits_val(ds);
            if sc <= max_scale() && v < mantissa_cap() {
                Some(Decimal { negative: neg && v != 0, mantissa: v as u128, scale: sc as u32 })
            } else {
                None
            }
        },
    }
}

/// Appending digit characters never decreases the denoted value.
pub proof fn lemma_digits_val_prefix(s: Seq<char>, n: int)
    requires
        0 <= n <= s.len(),
    ensures
        digits_val(s.take(n)) <= digits_val(s),
    decreases s.len() - n,
{
    if n == s.len() {
        assert(s.take(n) =~= s);
    } else {
        lemma_digits_val_prefix(s, n + 1);
        assert(s.take(n + 1).drop_last() =~= s.take(n));
        assert(digits_val(s.take(n + 1)) == digits_val(s.take(n)) * 10 + dval(
            s.take(n + 1).last(),
        ) as nat);
        assert(digits_val(s.take(n)) * 10 >= digits_val(s.take(n))) by {
            assert(digits_val(s.take(n)) >= 0);
        }
    }
}

/// Powers of ten.
pub open spec fn pow10(e: nat) -> nat
    decreases e,
{
    if e == 0 {
        1
    } else {
        pow10((e - 1) as nat) * 10
    }
}

/// `pow10` is monotone and positive.
pub proof fn lemma_pow10_le(a: nat, b: nat)
    requires
        a <= b,
    ensures
        pow10(a) <= pow10(b),
        pow10(a) >= 1,
    decreases b,
{
    if a == b {
        if b > 0 {
            lemma_pow10_le((b - 1) as nat, (b - 1) as nat);
        }
    } else {
        lemma_pow10_le(a, (b - 1) as nat);
        assert(pow10(b) == pow10((b - 1) as nat) * 10);
    }
}

/// The value of `10^28`.
pub proof fn lemma_pow10_28()
    ensures
        pow10(28) == 0x204fce5e3e25026110000000,
{
    assert(pow10(28) == 0x204fce5e3e25026110000000) by {
        reveal_with_fuel(pow10, 29);
    }
}

/// Concatenation splits the denoted value positionally.
pub proof fn lemma_digits_val_concat(a: Seq<char>, b: Seq<char>)
    ensures
        digits_val(a + b) == digits_val(a) * pow10(b.len() as nat) + digits_val(b),
    decreases b.len(),
{
    if b.len() == 0 {
        assert(a + b =~= a);
        assert(digits_val(b) == 0);
        assert(pow10(b.len() as nat) == 1);
        assert(digits_val(a) * 1 == digits_val(a));
    } else {
        lemma_digits_val_concat(a, b.drop_last());
        let ab = a + b;
        assert(ab.drop_last() =~= a + b.drop_last());
        assert(ab.last() == b.last());
        assert(digits_val(ab) == digits_val(a + b.drop_last()) * 10 + dval(b.last()) as nat);
        let va = digits_val(a);
        let p1 = pow10((b.len() - 1) as nat);
        let vb1 = digits_val(b.drop_last());
        let d = dval(b.last()) as nat;
        assert(digits_val(ab) == (va * p1 + vb1) * 10 + d);
        assert((va * p1 + vb1) * 10 == va * p1 * 10 + vb1 * 10) by {
            vstd::arithmetic::mul::lemma_mul_is_distributive_add_other_way(
                10,
                (va * p1) as int,
                vb1 as int,
            );
        }
        assert(va * p1 * 10 == va * (p1 * 10)) by {
            vstd::arithmetic::mul::lemma_mul_is_associative(va as int, p1 as int, 10);
        }
        assert(pow10(b.len() as nat) == p1 * 10);
        assert(digits_val(b) == vb1 * 10 + d);
        assert(digits_val(a + b) == va * pow10(b.len() as nat) + digits_val(b));
    }
}

/// Computes `10^e` for scales up to 28.
pub fn pow10_u128(e: u32) -> (r: u128)
    requires
        e <= max_scale(),
    ensures
        r == pow10(e as nat),
        r >= 1,
{
    proof {
        lemma_pow10_28();
        lemma_pow10_le(0, e as nat);
    }
    let mut r: u128 = 1;
    let mut i: u32 = 0;
    while i < e
        invariant
            i <= e,
            e <= 28,
            r == pow10(i as nat),
            pow10(28) == 0x204fce5e3e25026110000000,
        decreases e - i,
    {
        proof {
            lemma_pow10_le((i + 1) as nat, 28);
            assert(pow10((i + 1) as nat) == pow10(i as nat) * 10);
        }
        r = r * 10;
        i += 1;
    }
    r
}

/// Parses a decimal text exactly.
pub fn parse_decimal(s: &Vec<char>) -> (r: Option<Decimal>)
    ensures
        r == spec_parse_decimal(s@),
        r is Some ==> r->0.wf(),
{
    let ghost gpair = sign_split(s@);
    let ghost gbody = gpair.1;
    let n = s.len();
    let mut start: usize = 0;
    let mut neg = false;
    if n > 0 && s[0] == '-' {
        neg = true;
        start = 1;
    } else if n > 0 && s[0] == '+' {
        start = 1;
    }
    proof {
        assert(gbody =~= s@.skip(start as int));
        assert(gpair.0 == neg);
    }
    // Integer digits.
    let mut i: usize = start;
    let mut mant: u128 = 0;
    while i < n && digit(s[i])
        invariant
            start <= i <= n,
            n == s@.len(),
            gbody == s@.skip(start as int),
            sign_split(s@) == (neg, gbody),
            forall|k: int| 0 <= k < i - start ==> is_digit(#[trigger] gbody[k]),
            mant == digits_val(gbody.take(i - start)),
            (mant as nat) < mantissa_cap(),
        decreases n - i,
    {
        let d = digit_val(s[i]) as u128;
        let nm = mant * 10 + d;
        proof {
            assert(gbody.take(i - start + 1).drop_last() =~= gbody.take(i - start));
            assert(gbody.take(i - start + 1).last() == s@[i as int]);
            assert(digits_val(gbody.take(i - start + 1)) == digits_val(gbody.take(i - start)) * 10
                + dval(s@[i as int]) as nat);
            assert(nm == digits_val(gbody.take(i - start + 1)));
        }
        if nm >= 0x1000000000000000000000000 {
            proof {
                lemma_overflow_int(gbody, i - start + 1, nm as nat);
                assert(spec_parse_decimal(s@) is None);
            }
            return None;
        }
        mant = nm;
        i += 1;
    }
    proof {
        lemma_digits_end_is(gbody, 0, i - start);
    }
    if i == n {
        // Pure integer body.
        if i == start {
            return None;
        }
        proof {
            assert(gbody.take(i - start) =~= gbody);
        }
        return Some(Decimal { negative: neg && mant != 0, mantissa: mant, scale: 0 });
    }
    if s[i] != '.' {
        return None;
    }
    // Fraction digits.
    let dot = i;
    let mut j: usize = i + 1;
    while j < n && digit(s[j])
        invariant
            start <= dot < j <= n,
            n == s@.len(),
            gbody == s@.skip(start as int),
            sign_split(s@) == (neg, gbody),
            s@[dot as int] == '.',
            digits_end(gbody, 0) == dot - start,
            forall|k: int| 0 <= k < dot - start ==> is_digit(#[trigger] gbody[k]),
            forall|k: int| dot - start < k < j - start ==> is_digit(#[trigger] gbody[k]),
            mant == digits_val(
                gbody.take(dot - start) + gbody.subrange(dot - start + 1, j - start),
            ),
            (mant as nat) < mantissa_cap(),
        decreases n - j,
    {
        let d = digit_val(s[j]) as u128;
        let nm = mant * 10 + d;
        proof {
            let ip = gbody.take(dot - start);
            let f0 = gbody.subrange(dot - start + 1, j - start);
            let f1 = gbody.subrange(dot - start + 1, j - start + 1);
            assert((ip + f1).drop_last() =~= ip + f0);
            assert((ip + f1).last() == s@[j as int]);
            assert(digits_val(ip + f1) == digits_val(ip + f0) * 10 + dval(s@[j as int]) as nat);
            assert(nm == digits_val(ip + f1));
        }
        if nm >= 0x1000000000000000000000000 {
            proof {
                lemma_overflow_frac(gbody, dot - start, j - start + 1, nm as nat);
                assert(spec_parse_decimal(s@) is None);
            }
            return None;
        }
        mant = nm;
        j += 1;
    }
    proof {
        lemma_digits_end_is(gbody, dot - start + 1, j - start);
    }
    if j < n {
        // A character that is neither digit nor a first point.
        return None;
    }
    let ip_len = dot - start;
    let fp_len = n - dot - 1;
    if ip_len == 0 && fp_len == 0 {
        return None;
    }
    if fp_len > 28 {
        return None;
    }
    proof {
        assert(gbody.subrange(dot - start + 1, n - start) =~= gbody.skip(dot - start + 1));
    }
    Some(Decimal { negative: neg && mant != 0, mantissa: mant, scale: fp_len as u32 })
}

/// If the integer digits scanned so far already reach the cap, the spec
/// rejects the text.
proof fn lemma_overflow_int(b: Seq<char>, k: int, m: nat)
    requires
        0 <= k <= b.len(),
        forall|x: int| 0 <= x < k ==> is_digit(#[trigger] b[x]),
        m == digits_val(b.take(k)),
        m >= mantissa_cap(),
    ensures
        spec_rejects_body(b),
{
    match body_digits(b) {
        None => {},
        Some((ds, sc)) => {
            let e1 = digits_end(b, 0);
            lemma_digits_end(b, 0);
            if e1 == b.len() {
                lemma_digits_val_prefix(b, k);
            } else {
                // b[e1] is not a digit, so the scanned digits sit inside
                // the integer part.
                assert(k <= e1) by {
                    if e1 < k {
                        assert(is_digit(b[e1]));
                    }
                }
                let ip = b.take(e1);
                let fp = b.skip(e1 + 1);
                assert(b.take(k) =~= ip.take(k));
                lemma_digits_val_prefix(ip, k);
                lemma_digits_val_concat(ip, fp);
                lemma_pow10_le(0, fp.len() as nat);
                vstd::arithmetic::mul::lemma_mul_inequality(
                    1,
                    pow10(fp.len() as nat) as int,
                    digits_val(ip) as int,
                );
            }
        },
    }
}

/// If the digits scanned past the point already reach the cap, the spec
/// rejects the text.
proof fn lemma_overflow_frac(b: Seq<char>, dp: int, k: int, m: nat)
    requires
        0 <= dp < b.len(),
        b[dp] == '.',
        digits_end(b, 0) == dp,
        dp + 1 <= k <= b.len(),
        forall|x: int| dp < x < k ==> is_digit(#[trigger] b[x]),
        m == digits_val(b.take(dp) + b.subrange(dp + 1, k)),
        m >= mantissa_cap(),
    ensures
        spec_rejects_body(b),
{
    match body_digits(b) {
        None => {},
        Some((ds, sc)) => {
            let e1 = digits_end(b, 0);
            let ip = b.take(e1);
            let fp = b.skip(e1 + 1);
            let fpk = b.subrange(dp + 1, k);
            assert(fpk =~= fp.take(k - dp - 1));
            lemma_digits_val_prefix(fp, k - dp - 1);
            lemma_digits_val_concat(ip, fpk);
            lemma_digits_val_concat(ip, fp);
            lemma_pow10_le(fpk.len() as nat, fp.len() as nat);
            vstd::arithmetic::mul::lemma_mul_inequality(
                pow10(fpk.len() as nat) as int,
                pow10(fp.len() as nat) as int,
                digits_val(ip) as int,
            );
        },
    }
}

/// The spec result on body `b` is `None`, because its digit value reaches
/// the mantissa cap (or it is not a digit body at all).
pub open spec fn spec_rejects_body(b: Seq<char>) -> bool {
    match body_digits(b) {
        None => true,
        Some((ds, sc)) => digits_val(ds) >= mantissa_cap(),
    }
}


/// The digit string of `n`, most significant digit first, no leading zero
/// except for `0` itself.
pub open spec fn digits_of(n: nat) -> Seq<char>
    decreases n,
{
    if n < 10 {
        seq![digit_char(n as int)]
    } else {
        digits_of(n / 10).push(digit_char((n % 10) as int))
    }
}

/// The digit string of `n` padded to exactly `w` digits.
pub open spec fn padded_digits(n: nat, w: nat) -> Seq<char>
    decreases w,
{
    if w == 0 {
        Seq::empty()
    } else {
        padded_digits(n / 10, (w - 1) as nat).push(digit_char((n % 10) as int))
    }
}

/// The canonical text of a decimal: optional minus sign, integer digits,
/// and, for a nonzero scale, a point followed by exactly `scale` fraction
/// digits.
pub open spec fn dec_text(d: Decimal) -> Seq<char> {
    let sign: Seq<char> = if d.negative {
        seq!['-']
    } else {
        Seq::empty()
    };
    if d.scale == 0 {
        sign + digits_of(d.mantissa as nat)
    } else {
        let p = pow10(d.scale as nat);
        sign + digits_of((d.mantissa as nat) / p) + seq!['.'] + padded_digits(
            (d.mantissa as nat) % p,
            d.scale as nat,
        )
    }
}

/// Shape and value of `digits_of`.
pub proof fn lemma_digits_of(n: nat)
    ensures
        digits_of(n).len() >= 1,
        all_digits(digits_of(n)),
        digits_val(digits_of(n)) == n,
    decreases n,
{
    if n < 10 {
        lemma_digit_char_val(n as int);
        assert(digits_of(n).drop_last() =~= Seq::<char>::empty());
        assert(digits_val(Seq::<char>::empty()) == 0);
        assert(digits_val(digits_of(n)) == 0 * 10 + dval(digit_char(n as int)) as nat);
    } else {
        lemma_digits_of(n / 10);
        lemma_digit_char_val((n % 10) as int);
        let w = digits_of(n / 10).push(digit_char((n % 10) as int));
        assert(w.drop_last() =~= digits_of(n / 10));
        assert(w.last() == digit_char((n % 10) as int));
        assert(digits_val(w) == (n / 10) * 10 + n % 10);
        assert forall|i: int| 0 <= i < w.len() implies is_digit(#[trigger] w[i]) by {
            if i < w.len() - 1 {
                assert(w[i] == digits_of(n / 10)[i]);
            }
        }
    }
}

/// Shape and value of `padded_digits`.
pub proof fn lemma_padded_digits(n: nat, w: nat)
    requires
        n < pow10(w),
    ensures
        padded_digits(n, w).len() == w,
        all_digits(padded_digits(n, w)),
        digits_val(padded_digits(n, w)) == n,
    decreases w,
{
    if w == 0 {
    } else {
        assert(pow10(w) == pow10((w - 1) as nat) * 10);
        assert(n / 10 < pow10((w - 1) as nat)) by {
            let p1 = pow10((w - 1) as nat);
            assert(n < p1 * 10);
            assert(n / 10 < p1) by (nonlinear_arith)
                requires
                    n < p1 * 10,
                    p1 >= 0,
            ;
        }
        lemma_padded_digits(n / 10, (w - 1) as nat);
        lemma_digit_char_val((n % 10) as int);
        let v = padded_digits(n, w);
        assert(v.drop_last() =~= padded_digits(n / 10, (w - 1) as nat));
        assert(v.last() == digit_char((n % 10) as int));
        assert(digits_val(v) == (n / 10) * 10 + n % 10);
        assert forall|i: int| 0 <= i < v.len() implies is_digit(#[trigger] v[i]) by {
            if i < v.len() - 1 {
                assert(v[i] == padded_digits(n / 10, (w - 1) as nat)[i]);
            }
        }
    }
}

/// Formatting then decoding gives back the same decimal: the textual form
/// of every well-formed value round-trips exactly, with no drift.
pub proof fn lemma_decimal_round_trip(d: Decimal)
    requires
        d.wf(),
    ensures
        spec_parse_decimal(dec_text(d)) == Some(d),
{
    let m = d.mantissa as nat;
    let t = dec_text(d);
    let pair = sign_split(t);
    if d.scale == 0 {
        let ds = digits_of(m);
        lemma_digits_of(m);
        if d.negative {
            assert(t == seq!['-'] + ds);
            assert(t[0] == '-');
            assert(pair.1 =~= ds);
        } else {
            assert(t =~= ds);
            assert(t[0] != '-' && t[0] != '+') by {
                assert(is_digit(t[0]));
            }
            assert(pair.1 == t);
        }
        let b = pair.1;
        assert(b == ds);
        lemma_digits_end_is(b, 0, b.len() as int);
        assert(body_digits(b) == Some((b, 0int)));
        assert(digits_val(b) == m);
    } else {
        let p = pow10(d.scale as nat);
        let ip = digits_of(m / p);
        let fp = padded_digits(m % p, d.scale as nat);
        lemma_pow10_le(0, d.scale as nat);
        vstd::arithmetic::div_mod::lemma_mod_bound(m as int, p as int);
        lemma_digits_of(m / p);
        lemma_padded_digits(m % p, d.scale as nat);
        let body = ip + seq!['.'] + fp;
        if d.negative {
            assert(t == seq!['-'] + ip + seq!['.'] + fp);
            assert(t[0] == '-');
            assert(pair.1 =~= body);
        } else {
            assert(t =~= body);
            assert(t[0] != '-' && t[0] != '+') by {
                assert(t[0] == ip[0]);
                assert(is_digit(t[0]));
            }
            assert(pair.1 == t);
        }
        let b = pair.1;
        assert(b == body);
        let a = ip.len() as int;
        assert forall|k: int| 0 <= k < a implies is_digit(#[trigger] b[k]) by {
            assert(b[k] == ip[k]);
        }
        assert(b[a] == '.');
        assert(!is_digit('.'));
        lemma_digits_end_is(b, 0, a);
        assert forall|k: int| a + 1 <= k < b.len() implies is_digit(#[trigger] b[k]) by {
            assert(b[k] == fp[k - a - 1]);
        }
        lemma_digits_end_is(b, a + 1, b.len() as int);
        assert(b.take(a) =~= ip);
        assert(b.skip(a + 1) =~= fp);
        assert(body_digits(b) == Some((ip + fp, d.scale as int)));
        lemma_digits_val_concat(ip, fp);
        assert(digits_val(ip + fp) == (m / p) * pow10(d.scale as nat) + m % p);
        assert((m / p) * p + m % p == m) by {
            lemma_pow10_le(0, d.scale as nat);
            vstd::arithmetic::div_mod::lemma_fundamental_div_mod(m as int, p as int);
        }
        assert(digits_val(ip + fp) == m);
    }
}

/// Builds the digit characters of `n`.
fn digits_u128(n: u128) -> (r: Vec<char>)
    ensures
        r@ == digits_of(n as nat),
    decreases n,
{
    let d = (n % 10) as u32;
    let c = digit_char_of(d);
    if n < 10 {
        let mut v: Vec<char> = Vec::new();
        v.push(c);
        proof {
            assert(v@ =~= seq![digit_char(n as int)]);
        }
        v
    } else {
        let mut v = digits_u128(n / 10);
        v.push(c);
        v
    }
}

/// Builds exactly `w` digit characters for `n`.
fn padded_u128(n: u128, w: u32) -> (r: Vec<char>)
    ensures
        r@ == padded_digits(n as nat, w as nat),
    decreases w,
{
    if w == 0 {
        let v: Vec<char> = Vec::new();
        proof {
            assert(v@ =~= padded_digits(n as nat, 0));
        }
        v
    } else {
        let mut v = padded_u128(n / 10, w - 1);
        v.push(digit_char_of((n % 10) as u32));
        v
    }
}

/// The digit character of a value below ten.
fn digit_char_of(n: u32) -> (r: char)
    requires
        n <= 9,
    ensures
        r == digit_char(n as int),
{
    if n == 0 {
        '0'
    } else if n == 1 {
        '1'
    } else if n == 2 {
        '2'
    } else if n == 3 {
        '3'
    } else if n == 4 {
        '4'
    } else if n == 5 {
        '5'
    } else if n == 6 {
        '6'
    } else if n == 7 {
        '7'
    } else if n == 8 {
        '8'
    } else {
        '9'
    }
}

impl Decimal {
    /// Formats the decimal canonically: optional minus sign, the integer
    /// digits, and, for a nonzero scale, a point followed by exactly
    /// `scale` fraction digits.
    pub fn to_text(&self) -> (r: String)
        requires
            self.wf(),
        ensures
            r@ == dec_text(*self),
    {
        let mut v: Vec<char> = Vec::new();
        if self.negative {
            v.push('-');
        }
        if self.scale == 0 {
            let mut ds = digits_u128(self.mantissa);
            v.append(&mut ds);
            proof {
                assert(v@ =~= dec_text(*self));
            }
        } else {
            let p = pow10_u128(self.scale);
            let mut ip = digits_u128(self.mantissa / p);
            let mut fp = padded_u128(self.mantissa % p, self.scale);
            proof {
                vstd::arithmetic::div_mod::lemma_mod_bound(
                    self.mantissa as int,
                    p as int,
                );
            }
            v.append(&mut ip);
            v.push('.');
            v.append(&mut fp);
            proof {
                assert(v@ =~= dec_text(*self));
            }
        }
        crate::chars::string_from_chars(&v)
    }
}


/// A digit character is recovered from its value.
pub proof fn lemma_char_of_digit(c: char)
    requires
        is_digit(c),
    ensures
        digit_char(dval(c)) == c,
{
    assert(c as int >= '0' as int && c as int <= '9' as int);
}

/// A digit string's value is bounded by the power of ten of its length.
pub proof fn lemma_digits_val_bound(d: Seq<char>)
    requires
        all_digits(d),
    ensures
        digits_val(d) < pow10(d.len() as nat),
    decreases d.len(),
{
    if d.len() == 0 {
    } else {
        assert(all_digits(d.drop_last())) by {
            assert(forall|i: int|
                0 <= i < d.len() - 1 ==> #[trigger] d.drop_last()[i] == d[i]);
        }
        lemma_digits_val_bound(d.drop_last());
        assert(is_digit(d.last()));
        assert(dval(d.last()) <= 9);
        let p1 = pow10((d.len() - 1) as nat);
        assert(digits_val(d) <= (p1 - 1) * 10 + 9);
        assert(pow10(d.len() as nat) == p1 * 10);
    }
}

/// A digit string that does not start with `0` denotes a positive value.
pub proof fn lemma_digits_val_pos(d: Seq<char>)
    requires
        all_digits(d),
        d.len() >= 1,
        d[0] != '0',
    ensures
        digits_val(d) >= 1,
    decreases d.len(),
{
    if d.len() == 1 {
        assert(digits_val(d.drop_last()) == 0);
        assert(is_digit(d[0]));
        assert(dval(d[0]) >= 1);
    } else {
        assert(all_digits(d.drop_last())) by {
            assert(forall|i: int|
                0 <= i < d.len() - 1 ==> #[trigger] d.drop_last()[i] == d[i]);
        }
        lemma_digits_val_pos(d.drop_last());
    }
}

/// `digits_of` recovers a digit string without a leading zero from its
/// value.
pub proof fn lemma_digits_of_inv(d: Seq<char>)
    requires
        all_digits(d),
        d.len() >= 1,
        d.len() == 1 || d[0] != '0',
    ensures
        digits_of(digits_val(d)) == d,
    decreases d.len(),
{
    let v = digits_val(d);
    let d0 = d.drop_last();
    let c = d.last();
    assert(is_digit(c));
    assert(all_digits(d0)) by {
        assert(forall|i: int| 0 <= i < d.len() - 1 ==> #[trigger] d0[i] == d[i]);
    }
    if d.len() == 1 {
        assert(digits_val(d0) == 0);
        assert(v == dval(c));
        lemma_char_of_digit(c);
        assert(digits_of(v) =~= d);
    } else {
        lemma_digits_val_pos(d0);
        let v0 = digits_val(d0);
        assert(v == v0 * 10 + dval(c));
        assert(v >= 10);
        vstd::arithmetic::div_mod::lemma_fundamental_div_mod_converse(
            v as int,
            10,
            v0 as int,
            dval(c),
        );
        assert(v / 10 == v0 && v % 10 == dval(c) as nat);
        lemma_digits_of_inv(d0);
        lemma_char_of_digit(c);
        assert(digits_of(v) == digits_of(v0).push(digit_char(dval(c))));
        assert(digits_of(v) =~= d);
    }
}

/// `padded_digits` recovers any digit string from its value and length.
pub proof fn lemma_padded_inv(f: Seq<char>)
    requires
        all_digits(f),
    ensures
        padded_digits(digits_val(f), f.len() as nat) == f,
    decreases f.len(),
{
    if f.len() == 0 {
        assert(padded_digits(0, 0) =~= f);
    } else {
        let f0 = f.drop_last();
        let c = f.last();
        assert(is_digit(c));
        assert(all_digits(f0)) by {
            assert(forall|i: int| 0 <= i < f.len() - 1 ==> #[trigger] f0[i] == f[i]);
        }
        let v = digits_val(f);
        let v0 = digits_val(f0);
        assert(v == v0 * 10 + dval(c));
        vstd::arithmetic::div_mod::lemma_fundamental_div_mod_converse(
            v as int,
            10,
            v0 as int,
            dval(c),
        );
        lemma_padded_inv(f0);
        lemma_char_of_digit(c);
        assert(padded_digits(v, f.len() as nat) == padded_digits(v0, (f.len() - 1) as nat).push(
            digit_char(dval(c)),
        ));
        assert(padded_digits(v, f.len() as nat) =~= f);
    }
}

/// A canonical decimal text: it decodes, carries no plus sign, no leading
/// zero in a multi-digit integer part, no negative zero, and no bare
/// trailing point.
pub open spec fn is_canonical_decimal(s: Seq<char>) -> bool {
    let pair = sign_split(s);
    let b = pair.1;
    let e1 = digits_end(b, 0);
    &&& spec_parse_decimal(s) is Some
    &&& !(s.len() > 0 && s[0] == '+')
    &&& e1 >= 1
    &&& (e1 == 1 || b[0] != '0')
    &&& (pair.0 ==> spec_parse_decimal(s)->0.mantissa != 0)
    &&& (e1 < b.len() ==> b.len() > e1 + 1)
}

/// Decoding then reformatting preserves every canonical decimal text
/// exactly: no drift can enter through the decoder.
pub proof fn lemma_decimal_text_round_trip(s: Seq<char>)
    requires
        is_canonical_decimal(s),
    ensures
        dec_text(spec_parse_decimal(s)->0) == s,
{
    let pair = sign_split(s);
    let neg = pair.0;
    let b = pair.1;
    let e1 = digits_end(b, 0);
    lemma_digits_end(b, 0);
    let d = spec_parse_decimal(s)->0;
    if neg {
        assert(s[0] == '-');
        assert(b == s.skip(1));
        assert(s =~= seq!['-'] + b);
    } else {
        assert(s.len() > 0);
        assert(s[0] != '-' && s[0] != '+');
        assert(b == s);
    }
    assert(d.negative == neg);
    if e1 == b.len() {
        // Pure integer body.
        assert(body_digits(b) == Some((b, 0int)));
        assert(d.mantissa as nat == digits_val(b) && d.scale == 0);
        assert(all_digits(b));
        lemma_digits_of_inv(b);
        if neg {
            assert(dec_text(d) == seq!['-'] + digits_of(d.mantissa as nat));
            assert(dec_text(d) == s);
        } else {
            assert(dec_text(d) =~= s);
        }
    } else {
        // A point and a nonempty fraction.
        assert(b[e1] == '.');
        let e2 = digits_end(b, e1 + 1);
        lemma_digits_end(b, e1 + 1);
        assert(e2 == b.len());
        let ip = b.take(e1);
        let fp = b.skip(e1 + 1);
        assert(body_digits(b) == Some((ip + fp, b.len() - e1 - 1)));
        let sc = (b.len() - e1 - 1) as nat;
        assert(fp.len() == sc);
        assert(sc >= 1);
        assert(d.mantissa as nat == digits_val(ip + fp) && d.scale as nat == sc);
        assert(all_digits(ip)) by {
            assert(forall|i: int| 0 <= i < e1 ==> #[trigger] ip[i] == b[i]);
        }
        assert(all_digits(fp)) by {
            assert(forall|i: int| 0 <= i < fp.len() ==> #[trigger] fp[i] == b[e1 + 1 + i]);
        }
        let v = digits_val(ip + fp);
        let p = pow10(sc);
        lemma_digits_val_concat(ip, fp);
        lemma_digits_val_bound(fp);
        lemma_pow10_le(0, sc);
        vstd::arithmetic::div_mod::lemma_fundamental_div_mod_converse(
            v as int,
            p as int,
            digits_val(ip) as int,
            digits_val(fp) as int,
        );
        assert(v / p == digits_val(ip) && v % p == digits_val(fp));
        lemma_digits_of_inv(ip);
        lemma_padded_inv(fp);
        assert(digits_of((d.mantissa as nat) / p) == ip);
        assert(padded_digits((d.mantissa as nat) % p, sc) == fp);
        if neg {
            assert(dec_text(d) == seq!['-'] + ip + seq!['.'] + fp);
            assert(seq!['-'] + ip + seq!['.'] + fp =~= seq!['-'] + b);
            assert(dec_text(d) == s);
        } else {
            assert(dec_text(d) == ip + seq!['.'] + fp);
            assert(ip + seq!['.'] + fp =~= b);
            assert(dec_text(d) == s);
        }
    }
}
} // verus!
