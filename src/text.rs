//! Character-level helpers: ASCII case folding, reading numbers in decimal
//! notation exactly, and writing integers in decimal.

use vstd::prelude::*;

verus! {

/// The code of `c` after ASCII lowercasing: `A`..=`Z` move to `a`..=`z`,
/// every other character keeps its code.
pub open spec fn folded_code(c: char) -> u32 {
    if 'A' <= c && c <= 'Z' {
        (c as u32 + 32) as u32
    } else {
        c as u32
    }
}

/// `s` equals `t` once both are ASCII-lowercased.
pub open spec fn eq_folded(s: Seq<char>, t: Seq<char>) -> bool {
    &&& s.len() == t.len()
    &&& forall|i: int| 0 <= i < s.len() ==> #[trigger] folded_code(s[i]) == folded_code(t[i])
}

/// Case-insensitive equality is symmetric and transitive.
pub proof fn lemma_eq_folded_trans(s: Seq<char>, t: Seq<char>, u: Seq<char>)
    requires
        eq_folded(s, t),
    ensures
        eq_folded(t, s),
        eq_folded(t, u) ==> eq_folded(s, u),
        eq_folded(s, u) ==> eq_folded(t, u),
{
    if eq_folded(t, u) {
        assert forall|i: int| 0 <= i < s.len() implies #[trigger] folded_code(s[i]) == folded_code(u[i]) by {
            assert(folded_code(s[i]) == folded_code(t[i]));
            assert(folded_code(t[i]) == folded_code(u[i]));
        }
    }
    if eq_folded(s, u) {
        assert forall|i: int| 0 <= i < t.len() implies #[trigger] folded_code(t[i]) == folded_code(u[i]) by {
            assert(folded_code(s[i]) == folded_code(t[i]));
            assert(folded_code(s[i]) == folded_code(u[i]));
        }
    }
    assert forall|i: int| 0 <= i < t.len() implies #[trigger] folded_code(t[i]) == folded_code(s[i]) by {
        assert(folded_code(s[i]) == folded_code(t[i]));
    }
}

/// Compares `s` with `t`, ignoring ASCII case.
pub fn eq_ignore_ascii_case(s: &str, t: &str) -> (r: bool)
    ensures
        r == eq_folded(s@, t@),
{
    let n = s.unicode_len();
    if n != t.unicode_len() {
        return false;
    }
    let mut i: usize = 0;
    while i < n
        invariant
            n == s@.len(),
            n == t@.len(),
            i <= n,
            forall|j: int| 0 <= j < i ==> #[trigger] folded_code(s@[j]) == folded_code(t@[j]),
        decreases n - i,
    {
        let a = s.get_char(i);
        let b = t.get_char(i);
        let fa: u32 = if 'A' <= a && a <= 'Z' { a as u32 + 32 } else { a as u32 };
        let fb: u32 = if 'A' <= b && b <= 'Z' { b as u32 + 32 } else { b as u32 };
        assert(fa == folded_code(s@[i as int]) && fb == folded_code(t@[i as int]));
        if fa != fb {
            return false;
        }
        i = i + 1;
    }
    true
}


/// The digit character for `d < 10`.
pub open spec fn digit_char(d: nat) -> char {
    if d == 0 { '0' }
    else if d == 1 { '1' }
    else if d == 2 { '2' }
    else if d == 3 { '3' }
    else if d == 4 { '4' }
    else if d == 5 { '5' }
    else if d == 6 { '6' }
    else if d == 7 { '7' }
    else if d == 8 { '8' }
    else { '9' }
}

/// The decimal digits of `n`, most significant first, without leading zeros.
pub open spec fn decimal(n: nat) -> Seq<char>
    decreases n,
{
    if n < 10 {
        seq![digit_char(n)]
    } else {
        decimal(n / 10) + seq![digit_char(n % 10)]
    }
}

/// The one-character string of the digit `d`.
fn digit_str(d: u64) -> (r: &'static str)
    requires
        d < 10,
    ensures
        r@ == seq![digit_char(d as nat)],
{
    proof {
        reveal_strlit("0");
        reveal_strlit("1");
        reveal_strlit("2");
        reveal_strlit("3");
        reveal_strlit("4");
        reveal_strlit("5");
        reveal_strlit("6");
        reveal_strlit("7");
        reveal_strlit("8");
        reveal_strlit("9");
    }
    let r = if d == 0 { "0" }
    else if d == 1 { "1" }
    else if d == 2 { "2" }
    else if d == 3 { "3" }
    else if d == 4 { "4" }
    else if d == 5 { "5" }
    else if d == 6 { "6" }
    else if d == 7 { "7" }
    else if d == 8 { "8" }
    else { "9" };
    assert(r@ =~= seq![digit_char(d as nat)]);
    r
}

/// Writes `n` in decimal.
pub fn decimal_string(n: u64) -> (r: String)
    ensures
        r@ == decimal(n as nat),
    decreases n,
{
    if n < 10 {
        String::from_str(digit_str(n))
    } else {
        let mut r = decimal_string(n / 10);
        r.append(digit_str(n % 10));
        r
    }
}

/// `c` is an ASCII decimal digit.
pub open spec fn is_digit(c: char) -> bool {
    '0' <= c && c <= '9'
}

/// The value of a decimal digit.
pub open spec fn digit_value(c: char) -> nat {
    (c as u32 - '0' as u32) as nat
}

/// The value of a string of decimal digits (zero for the empty string).
pub open spec fn digits_value(s: Seq<char>) -> nat
    decreases s.len(),
{
    if s.len() == 0 {
        0
    } else {
        digits_value(s.drop_last()) * 10 + digit_value(s.last())
    }
}

/// Reading the decimal digits of `n` back gives `n`.
pub proof fn lemma_decimal_value(n: nat)
    ensures
        digits_value(decimal(n)) == n,
    decreases n,
{
    let d = n % 10;
    assert(digit_value(digit_char(d)) == d) by {
        if d == 0 {} else if d == 1 {} else if d == 2 {} else if d == 3 {} else if d == 4 {}
        else if d == 5 {} else if d == 6 {} else if d == 7 {} else if d == 8 {} else {}
    }
    if n >= 10 {
        lemma_decimal_value(n / 10);
        let s = decimal(n);
        assert(s.drop_last() =~= decimal(n / 10));
        assert(s.last() == digit_char(d));
        assert(digits_value(s) == digits_value(decimal(n / 10)) * 10 + digit_value(digit_char(d)));
        assert(n == (n / 10) * 10 + d);
    } else {
        let s = decimal(n);
        assert(s.drop_last() =~= Seq::<char>::empty());
        assert(s.last() == digit_char(n));
        assert(digits_value(s) == digits_value(s.drop_last()) * 10 + digit_value(s.last()));
        assert(digits_value(Seq::<char>::empty()) == 0);
    }
}

/// `10` to the power `n`.
pub open spec fn pow10(n: nat) -> nat
    decreases n,
{
    if n == 0 {
        1
    } else {
        10 * pow10((n - 1) as nat)
    }
}

/// Powers of ten are positive and multiply by adding exponents.
pub proof fn lemma_pow10(a: nat, b: nat)
    ensures
        pow10(a) >= 1,
        pow10(a + b) == pow10(a) * pow10(b),
    decreases a,
{
    if a > 0 {
        lemma_pow10((a - 1) as nat, b);
        assert(pow10(a + b) == 10 * pow10((a - 1 + b) as nat));
        assert(10 * (pow10((a - 1) as nat) * pow10(b)) == (10 * pow10((a - 1) as nat)) * pow10(b))
            by (nonlinear_arith);
    } else {
        assert(pow10(0) == 1);
        assert(a + b == b);
    }
}

/// What a left-to-right reading of decimal notation has seen so far: the
/// digits read as one integer, how many of them follow the point, whether a
/// point and a digit have been seen, and whether the text is still well formed.
pub ghost struct DecimalScan {
    pub mantissa: nat,
    pub frac_digits: nat,
    pub seen_point: bool,
    pub seen_digit: bool,
    pub well_formed: bool,
}

/// The reading after one more character `c`.
pub open spec fn scan_step(st: DecimalScan, c: char) -> DecimalScan {
    if !st.well_formed {
        st
    } else if is_digit(c) {
        DecimalScan {
            mantissa: st.mantissa * 10 + digit_value(c),
            frac_digits: if st.seen_point { st.frac_digits + 1 } else { st.frac_digits },
            seen_digit: true,
            ..st
        }
    } else if c == '.' && !st.seen_point {
        DecimalScan { seen_point: true, ..st }
    } else {
        DecimalScan { well_formed: false, ..st }
    }
}

/// The reading of all of `s`.
pub open spec fn scan_decimal(s: Seq<char>) -> DecimalScan
    decreases s.len(),
{
    if s.len() == 0 {
        DecimalScan {
            mantissa: 0,
            frac_digits: 0,
            seen_point: false,
            seen_digit: false,
            well_formed: true,
        }
    } else {
        scan_step(scan_decimal(s.drop_last()), s.last())
    }
}

/// `s` is a number in decimal notation: ASCII digits with at most one point
/// among them, and at least one digit. Its value is
/// `scan_decimal(s).mantissa / pow10(scan_decimal(s).frac_digits)`.
pub open spec fn is_decimal(s: Seq<char>) -> bool {
    scan_decimal(s).well_formed && scan_decimal(s).seen_digit
}

/// Text that is malformed at some prefix stays malformed.
proof fn lemma_malformed_stays(s: Seq<char>, i: int)
    requires
        0 <= i <= s.len(),
        !scan_decimal(s.take(i)).well_formed,
    ensures
        !scan_decimal(s).well_formed,
    decreases s.len() - i,
{
    if i < s.len() {
        assert(s.take(i + 1).drop_last() =~= s.take(i));
        lemma_malformed_stays(s, i + 1);
    } else {
        assert(s.take(i) =~= s);
    }
}

/// A number read from decimal notation, exactly: its digits as one integer
/// (`None` where that integer exceeds `u64::MAX`) and how many of them
/// follow the point.
#[derive(Debug, Clone, Copy, PartialEq, Eq, Structural)]
pub struct DecimalValue {
    pub mantissa: Option<u64>,
    pub frac_digits: usize,
}

/// Reads a number in decimal notation (`"400"`, `"1.5"`, `".5"`, `"2."`);
/// anything else gives `None`.
pub fn parse_decimal(s: &str) -> (r: Option<DecimalValue>)
    ensures
        r is Some <==> is_decimal(s@),
        r matches Some(d) ==> {
            &&& d.frac_digits == scan_decimal(s@).frac_digits
            &&& d.mantissa matches Some(m) ==> m == scan_decimal(s@).mantissa
            &&& d.mantissa is None ==> scan_decimal(s@).mantissa > u64::MAX
        },
{
    let n = s.unicode_len();
    let mut mantissa: Option<u64> = Some(0);
    let mut frac_digits: usize = 0;
    let mut seen_point = false;
    let mut seen_digit = false;
    let mut i: usize = 0;
    while i < n
        invariant
            n == s@.len(),
            i <= n,
            frac_digits <= i,
            scan_decimal(s@.take(i as int)).well_formed,
            scan_decimal(s@.take(i as int)).frac_digits == frac_digits,
            scan_decimal(s@.take(i as int)).seen_point == seen_point,
            scan_decimal(s@.take(i as int)).seen_digit == seen_digit,
            mantissa matches Some(m) ==> m == scan_decimal(s@.take(i as int)).mantissa,
            mantissa is None ==> scan_decimal(s@.take(i as int)).mantissa > u64::MAX,
        decreases n - i,
    {
        let c = s.get_char(i);
        assert(s@.take(i + 1).drop_last() =~= s@.take(i as int));
        assert(s@.take(i + 1).last() == c);
        if '0' <= c && c <= '9' {
            let d: u64 = (c as u32 - '0' as u32) as u64;
            mantissa = match mantissa {
                Some(m) => if m > (u64::MAX - d) / 10 {
                    None
                } else {
                    Some(m * 10 + d)
                },
                None => None,
            };
            if seen_point {
                frac_digits = frac_digits + 1;
            }
            seen_digit = true;
        } else if c == '.' && !seen_point {
            seen_point = true;
        } else {
            proof {
                lemma_malformed_stays(s@, i + 1);
            }
            return None;
        }
        i = i + 1;
    }
    assert(s@.take(n as int) =~= s@);
    if seen_digit {
        Some(DecimalValue { mantissa, frac_digits })
    } else {
        None
    }
}

/// `v * pow10(k)`, or `None` where that exceeds `u64::MAX`.
pub fn scale_by_pow10(v: u64, k: usize) -> (r: Option<u64>)
    ensures
        r matches Some(x) ==> x == v * pow10(k as nat),
        r is None ==> v * pow10(k as nat) > u64::MAX,
{
    let mut acc: u64 = v;
    let mut i: usize = 0;
    assert(pow10(0) == 1);
    while i < k
        invariant
            i <= k,
            acc == v * pow10(i as nat),
        decreases k - i,
    {
        proof {
            lemma_pow10(i as nat, 1);
            lemma_pow10(1, 0);
        }
        if acc > u64::MAX / 10 {
            proof {
                lemma_pow10((i + 1) as nat, (k - i - 1) as nat);
                lemma_pow10((k - i - 1) as nat, 0);
                let rest = pow10((k - i - 1) as nat);
                assert(v * pow10(k as nat) == (acc * 10) * rest) by (nonlinear_arith)
                    requires
                        acc == v * pow10(i as nat),
                        pow10((i + 1) as nat) == pow10(i as nat) * 10,
                        pow10(k as nat) == pow10((i + 1) as nat) * rest,
                ;
                assert((acc * 10) * rest >= acc * 10) by (nonlinear_arith)
                    requires
                        rest >= 1,
                ;
            }
            return None;
        }
        assert(acc * 10 == v * pow10((i + 1) as nat)) by (nonlinear_arith)
            requires
                acc == v * pow10(i as nat),
                pow10((i + 1) as nat) == pow10(i as nat) * 10,
        ;
        acc = acc * 10;
        i = i + 1;
    }
    Some(acc)
}

} // verus!
