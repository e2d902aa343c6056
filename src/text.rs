//! Character-level helpers: comparison, decimal rendering and fixed-point
//! decimal parsing.

use vstd::prelude::*;
use vstd::string::*;

verus! {

/// Compares two strings character by character.
pub fn text_eq(a: &str, b: &str) -> (r: bool)
    ensures
        r == (a@ == b@),
{
    let n = a.unicode_len();
    if n != b.unicode_len() {
        return false;
    }
    let mut i: usize = 0;
    while i < n
        invariant
            n == a@.len(),
            n == b@.len(),
            i <= n,
            forall|k: int| 0 <= k < i ==> a@[k] == b@[k],
        decreases n - i,
    {
        if a.get_char(i) != b.get_char(i) {
            return false;
        }
        i = i + 1;
    }
    assert(a@ =~= b@);
    true
}

/// The character of a decimal digit value.
pub open spec fn digit_char(d: nat) -> char {
    if d == 0 { '0' }
    else if d == 1 { '1' }
    else if d == 2 { '2' }
    else if d == 3 { '3' }
    else if d == 4 { '4' }
    else if d == 5 { '5' }
    else if d == 6 { '6' }
    else if d == 7 { '7' }
    else if d == 8 { '8' }
    else { '9' }
}

/// Decimal rendering of a natural number, without leading zeros.
pub open spec fn decimal_of(n: nat) -> Seq<char>
    decreases n,
{
    if n < 10 {
        seq![digit_char(n)]
    } else {
        decimal_of(n / 10).push(digit_char(n % 10))
    }
}

fn digit_text(d: u64) -> (r: &'static str)
    requires
        d < 10,
    ensures
        r@ == seq![digit_char(d as nat)],
{
    proof {
        reveal_strlit("0");
        reveal_strlit("1");
        reveal_strlit("2");
        reveal_strlit("3");
        reveal_strlit("4");
        reveal_strlit("5");
        reveal_strlit("6");
        reveal_strlit("7");
        reveal_strlit("8");
        reveal_strlit("9");
    }
    if d == 0 { "0" }
    else if d == 1 { "1" }
    else if d == 2 { "2" }
    else if d == 3 { "3" }
    else if d == 4 { "4" }
    else if d == 5 { "5" }
    else if d == 6 { "6" }
    else if d == 7 { "7" }
    else if d == 8 { "8" }
    else { "9" }
}

/// Appends the decimal rendering of `n`.
pub fn append_decimal(s: &mut String, n: u64)
    ensures
        final(s)@ == old(s)@ + decimal_of(n as nat),
    decreases n,
{
    if n >= 10 {
        append_decimal(s, n / 10);
    }
    s.append(digit_text(n % 10));
    proof {
        if n >= 10 {
            assert(decimal_of(n as nat) == decimal_of((n / 10) as nat).push(digit_char((n % 10) as nat)));
        }
    }
}

pub open spec fn is_digit(c: char) -> bool {
    '0' <= c <= '9'
}

pub open spec fn digit_value(c: char) -> nat {
    (c as u32 - '0' as u32) as nat
}

/// Progress of reading an unsigned decimal number with an optional point,
/// keeping the integer part and the first three fraction digits.
pub struct DecimalScan {
    pub int_part: nat,
    pub frac: nat,
    pub frac_digits: nat,
    pub digits: nat,
    pub seen_point: bool,
    pub bad: bool,
}

pub open spec fn scan_start() -> DecimalScan {
    DecimalScan { int_part: 0, frac: 0, frac_digits: 0, digits: 0, seen_point: false, bad: false }
}

pub open spec fn scan_step(st: DecimalScan, c: char) -> DecimalScan {
    if st.bad {
        st
    } else if is_digit(c) {
        if !st.seen_point {
            DecimalScan { int_part: st.int_part * 10 + digit_value(c), digits: st.digits + 1, ..st }
        } else if st.frac_digits < 3 {
            DecimalScan {
                frac: st.frac * 10 + digit_value(c),
                frac_digits: st.frac_digits + 1,
                digits: st.digits + 1,
                ..st
            }
        } else {
            DecimalScan { digits: st.digits + 1, ..st }
        }
    } else if c == '.' && !st.seen_point {
        DecimalScan { seen_point: true, ..st }
    } else {
        DecimalScan { bad: true, ..st }
    }
}

/// The scan state after reading all of `s`.
pub open spec fn scan_decimal(s: Seq<char>) -> DecimalScan
    decreases s.len(),
{
    if s.len() == 0 {
        scan_start()
    } else {
        scan_step(scan_decimal(s.drop_last()), s.last())
    }
}

/// The scanned number in thousandths; fraction digits past the third are
/// dropped.
pub open spec fn scan_thousandths(st: DecimalScan) -> nat {
    st.int_part * 1000 + if st.frac_digits == 0 {
        0
    } else if st.frac_digits == 1 {
        st.frac * 100
    } else if st.frac_digits == 2 {
        st.frac * 10
    } else {
        st.frac
    }
}

/// The characters after an optional leading sign.
pub open spec fn unsigned_part(s: Seq<char>) -> Seq<char> {
    if s.len() > 0 && (s[0] == '-' || s[0] == '+') {
        s.drop_first()
    } else {
        s
    }
}

/// The value of a decimal text (`[+-]digits[.digits]`, at least one digit)
/// in thousandths of its unit, truncated toward zero; `None` when the text
/// is not such a number or its magnitude does not fit an `i64`. This is
/// the plain decimal form that OCPP sampled values use: exponent forms
/// (`5e3`), `inf` and `NaN` are not accepted.
pub open spec fn decimal_thousandths(s: Seq<char>) -> Option<int> {
    let st = scan_decimal(unsigned_part(s));
    let m = scan_thousandths(st);
    if st.bad || st.digits == 0 || m > i64::MAX {
        None
    } else if s.len() > 0 && s[0] == '-' {
        Some(-m)
    } else {
        Some(m as int)
    }
}

/// Largest integer part whose thousandths fit an `i64`.
const INT_PART_LIMIT: u64 = 9_223_372_036_854_775;

/// Reads a decimal text as a fixed-point number in thousandths of its unit.
pub fn parse_thousandths(s: &str) -> (r: Option<i64>)
    ensures
        r is Some <==> decimal_thousandths(s@) is Some,
        r is Some ==> r->0 == decimal_thousandths(s@)->0,
{
    let n = s.unicode_len();
    let mut start: usize = 0;
    let mut negative = false;
    if n > 0 {
        let c0 = s.get_char(0);
        if c0 == '-' {
            negative = true;
            start = 1;
        } else if c0 == '+' {
            start = 1;
        }
    }
    let ghost body = unsigned_part(s@);
    assert(body =~= s@.subrange(start as int, n as int));
    let mut int_part: u64 = 0;
    let mut frac: u64 = 0;
    let mut frac_digits: u64 = 0;
    let mut digits: u64 = 0;
    let mut seen_point = false;
    let mut too_large = false;
    let mut i: usize = start;
    while i < n
        invariant
            n == s@.len(),
            start <= i <= n,
            body == s@.subrange(start as int, n as int),
            body == unsigned_part(s@),
            !scan_decimal(body.subrange(0, i - start)).bad,
            scan_decimal(body.subrange(0, i - start)).seen_point == seen_point,
            scan_decimal(body.subrange(0, i - start)).frac == frac,
            scan_decimal(body.subrange(0, i - start)).frac_digits == frac_digits,
            scan_decimal(body.subrange(0, i - start)).digits == digits,
            digits <= i,
            frac_digits <= 3,
            frac_digits == 0 ==> frac == 0,
            frac_digits <= 1 ==> frac < 10,
            frac_digits <= 2 ==> frac < 100,
            frac < 1000,
            too_large ==> scan_decimal(body.subrange(0, i - start)).int_part > INT_PART_LIMIT,
            !too_large ==> scan_decimal(body.subrange(0, i - start)).int_part == int_part,
            int_part <= INT_PART_LIMIT,
        decreases n - i,
    {
        let c = s.get_char(i);
        let ghost prev = body.subrange(0, i - start);
        let ghost next = body.subrange(0, i + 1 - start);
        assert(next.drop_last() =~= prev);
        assert(next.last() == c);
        assert(scan_decimal(next) == scan_step(scan_decimal(prev), c));
        if '0' <= c && c <= '9' {
            let d = (c as u32 - '0' as u32) as u64;
            if !seen_point {
                let ghost sp = scan_decimal(prev).int_part;
                if !too_large {
                    if int_part > (INT_PART_LIMIT - d) / 10 {
                        assert(int_part * 10 + d > INT_PART_LIMIT) by (nonlinear_arith)
                            requires
                                int_part > (INT_PART_LIMIT - d) / 10,
                                d < 10,
                        ;
                        too_large = true;
                    } else {
                        assert(int_part * 10 + d <= INT_PART_LIMIT) by (nonlinear_arith)
                            requires
                                int_part <= (INT_PART_LIMIT - d) / 10,
                                d < 10,
                        ;
                        int_part = int_part * 10 + d;
                    }
                } else {
                    assert(sp * 10 + d > INT_PART_LIMIT) by (nonlinear_arith)
                        requires
                            sp > INT_PART_LIMIT,
                    ;
                }
            } else if frac_digits < 3 {
                frac = frac * 10 + d;
                frac_digits = frac_digits + 1;
            }
            digits = digits + 1;
        } else if c == '.' && !seen_point {
            seen_point = true;
        } else {
            proof {
                lemma_scan_bad_stays(body, (i + 1 - start) as nat);
            }
            return None;
        }
        i = i + 1;
    }
    assert(body.subrange(0, n - start) =~= body);
    if digits == 0 || too_large {
        return None;
    }
    let m: u64 = int_part * 1000 + if frac_digits == 0 {
        0
    } else if frac_digits == 1 {
        frac * 100
    } else if frac_digits == 2 {
        frac * 10
    } else {
        frac
    };
    if m > i64::MAX as u64 {
        return None;
    }
    if negative {
        Some(-(m as i64))
    } else {
        Some(m as i64)
    }
}

/// Once a scan has failed, reading more characters does not repair it.
proof fn lemma_scan_bad_stays(s: Seq<char>, k: nat)
    requires
        k <= s.len(),
        scan_decimal(s.subrange(0, k as int)).bad,
    ensures
        scan_decimal(s).bad,
    decreases s.len() - k,
{
    if k < s.len() {
        assert(s.subrange(0, k + 1 as int).drop_last() =~= s.subrange(0, k as int));
        lemma_scan_bad_stays(s, k + 1);
    } else {
        assert(s.subrange(0, k as int) =~= s);
    }
}

} // verus!
