//! Conversion of USD decimal text to integer micro-units (six implied
//! decimal places), and display formatting of micro-unit amounts.

use vstd::prelude::*;
use vstd::string::*;
use crate::text::{dec_str, grouped_dec_str, padded_dec_str, u64_to_grouped_string, u64_to_padded_string, u64_to_string};

verus! {

/// ASCII whitespace stripped from both ends of amount text.
pub open spec fn is_ascii_ws(b: u8) -> bool {
    b == 32 || (9 <= b && b <= 13)
}

/// ASCII decimal digit.
pub open spec fn is_ascii_digit(b: u8) -> bool {
    48 <= b && b <= 57
}

/// Numeric value of an ASCII digit.
pub open spec fn digit_value(b: u8) -> nat
    recommends
        is_ascii_digit(b),
{
    (b - 48) as nat
}

pub open spec fn trim_front(s: Seq<u8>) -> Seq<u8>
    decreases s.len(),
{
    if s.len() > 0 && is_ascii_ws(s[0]) {
        trim_front(s.drop_first())
    } else {
        s
    }
}

pub open spec fn trim_back(s: Seq<u8>) -> Seq<u8>
    decreases s.len(),
{
    if s.len() > 0 && is_ascii_ws(s.last()) {
        trim_back(s.drop_last())
    } else {
        s
    }
}

/// The text with ASCII whitespace removed from both ends.
pub open spec fn trim_ws(s: Seq<u8>) -> Seq<u8> {
    trim_back(trim_front(s))
}

/// Index of the first `.` in `s`, or `s.len()` if there is none.
pub open spec fn find_dot(s: Seq<u8>) -> int
    decreases s.len(),
{
    if s.len() == 0 {
        0
    } else if s[0] == 46 {
        0
    } else {
        1 + find_dot(s.drop_first())
    }
}

pub open spec fn has_dot(s: Seq<u8>) -> bool {
    find_dot(s) < s.len()
}

/// Number of characters after the first `.`, or zero if there is none.
pub open spec fn decimals_of(s: Seq<u8>) -> nat {
    if has_dot(s) {
        (s.len() - find_dot(s) - 1) as nat
    } else {
        0
    }
}

/// The trimmed text carries a leading `+` or `-`.
pub open spec fn has_sign(t: Seq<u8>) -> bool {
    t.len() > 0 && (t[0] == 43 || t[0] == 45)
}

/// The trimmed text carries a leading `-`.
pub open spec fn is_negative_text(t: Seq<u8>) -> bool {
    t.len() > 0 && t[0] == 45
}

/// The trimmed text with any leading sign removed.
pub open spec fn number_body(t: Seq<u8>) -> Seq<u8> {
    if has_sign(t) {
        t.drop_first()
    } else {
        t
    }
}

/// The digits before the first `.` of the body (all of it when there is no
/// dot).
pub open spec fn int_digits(b: Seq<u8>) -> Seq<u8> {
    b.take(find_dot(b))
}

/// The digits after the first `.` of the body, empty when there is no dot.
pub open spec fn frac_digits(b: Seq<u8>) -> Seq<u8> {
    if has_dot(b) {
        b.skip(find_dot(b) + 1)
    } else {
        Seq::empty()
    }
}

pub open spec fn all_digits(s: Seq<u8>) -> bool {
    forall|i: int| 0 <= i < s.len() ==> is_ascii_digit(s[i])
}

/// The body is an unsigned decimal number: digits, at most one dot, and at
/// least one digit overall.
pub open spec fn well_formed_number(b: Seq<u8>) -> bool {
    &&& all_digits(int_digits(b))
    &&& all_digits(frac_digits(b))
    &&& int_digits(b).len() + frac_digits(b).len() > 0
}

/// Value of a digit string read in base ten.
pub open spec fn digits_val(s: Seq<u8>) -> nat
    decreases s.len(),
{
    if s.len() == 0 {
        0
    } else {
        digits_val(s.drop_last()) * 10 + digit_value(s.last())
    }
}

pub open spec fn pow10(k: nat) -> nat
    decreases k,
{
    if k == 0 {
        1
    } else {
        10 * pow10((k - 1) as nat)
    }
}

/// Magnitude of the trimmed amount text in micro-units: the integer part
/// scaled by one million plus the fractional digits scaled to six places.
pub open spec fn micro_value(t: Seq<u8>) -> nat
    recommends
        frac_digits(number_body(t)).len() <= 6,
{
    let b = number_body(t);
    digits_val(int_digits(b)) * 1_000_000 + digits_val(frac_digits(b)) * pow10(
        (6 - frac_digits(b).len()) as nat,
    )
}

pub open spec fn decimals_ok(t: Seq<u8>) -> bool {
    decimals_of(t) <= 6
}

/// The trimmed amount text is accepted: at most six decimals, a well-formed
/// non-negative decimal number, and a micro-unit value that fits the amount
/// type.
pub open spec fn amount_accepted(t: Seq<u8>) -> bool {
    &&& decimals_ok(t)
    &&& well_formed_number(number_body(t))
    &&& !(is_negative_text(t) && micro_value(t) > 0)
    &&& micro_value(t) <= i64::MAX as nat
}

/// The error message reported for rejected amount text, by the first check
/// that fails: decimal count, then number shape, then sign, then range.
pub open spec fn amount_error_text(t: Seq<u8>) -> Seq<char> {
    if !decimals_ok(t) {
        "Maximum 6 decimal places allowed (got "@ + dec_str(decimals_of(t)) + ")"@
    } else if !well_formed_number(number_body(t)) {
        "Invalid number format"@
    } else if is_negative_text(t) && micro_value(t) > 0 {
        "Amount cannot be negative"@
    } else {
        "Amount exceeds the maximum supported value"@
    }
}

fn byte_is_ws(b: u8) -> (r: bool)
    ensures
        r == is_ascii_ws(b),
{
    b == 32 || (9 <= b && b <= 13)
}

fn byte_is_digit(b: u8) -> (r: bool)
    ensures
        r == is_ascii_digit(b),
{
    48 <= b && b <= 57
}

proof fn lemma_find_dot(s: Seq<u8>, i: int)
    requires
        0 <= i <= s.len(),
        forall|j: int| 0 <= j < i ==> s[j] != 46,
        i < s.len() ==> s[i] == 46,
    ensures
        find_dot(s) == i,
    decreases i,
{
    if i == 0 {
    } else {
        assert(s[0] != 46);
        lemma_find_dot(s.drop_first(), i - 1);
    }
}

const AMOUNT_CAP: u64 = 10_000_000_000_000;

fn trimmed_copy(bytes: &Vec<u8>) -> (t: Vec<u8>)
    ensures
        t@ == trim_ws(bytes@),
{
    let ghost s = bytes@;
    let n = bytes.len();
    proof {
        assert(s.skip(0) =~= s);
    }
    let mut start: usize = 0;
    while start < n && byte_is_ws(bytes[start])
        invariant
            0 <= start <= n,
            n == s.len(),
            bytes@ == s,
            trim_front(s) == trim_front(s.skip(start as int)),
        decreases n - start,
    {
        proof {
            assert(s.skip(start as int).drop_first() =~= s.skip(start as int + 1));
        }
        start += 1;
    }
    proof {
        if start == n {
            assert(s.skip(start as int) =~= Seq::<u8>::empty());
        }
        assert(trim_front(s) == s.skip(start as int));
        assert(s.subrange(start as int, n as int) =~= s.skip(start as int));
    }
    let mut end: usize = n;
    while end > start && byte_is_ws(bytes[end - 1])
        invariant
            start <= end <= n,
            n == s.len(),
            bytes@ == s,
            trim_front(s) == s.skip(start as int),
            trim_ws(s) == trim_back(s.subrange(start as int, end as int)),
        decreases end,
    {
        proof {
            assert(s.subrange(start as int, end as int).drop_last() =~= s.subrange(
                start as int,
                end as int - 1,
            ));
        }
        end -= 1;
    }
    proof {
        assert(trim_ws(s) == s.subrange(start as int, end as int));
    }
    let mut t: Vec<u8> = Vec::new();
    let mut i: usize = start;
    while i < end
        invariant
            start <= i <= end <= n,
            n == s.len(),
            bytes@ == s,
            t@ =~= s.subrange(start as int, i as int),
        decreases end - i,
    {
        t.push(bytes[i]);
        i += 1;
    }
    proof {
        assert(t@ =~= trim_ws(s));
    }
    t
}

fn find_first_dot(t: &Vec<u8>) -> (dot: usize)
    ensures
        dot as int == find_dot(t@),
        dot <= t@.len(),
{
    let tn = t.len();
    let mut dot: usize = 0;
    while dot < tn && t[dot] != 46
        invariant
            0 <= dot <= tn,
            tn == t@.len(),
            forall|j: int| 0 <= j < dot ==> t@[j] != 46,
        decreases tn - dot,
    {
        dot += 1;
    }
    proof {
        lemma_find_dot(t@, dot as int);
    }
    dot
}

/// Reads the digits of `t` between `from` and `to`, capping the accumulated
/// value at `AMOUNT_CAP`; `None` when a non-digit is met.
fn read_int_digits(t: &Vec<u8>, from: usize, to: usize) -> (r: Option<u64>)
    requires
        from <= to <= t@.len(),
    ensures
        r is Some <==> all_digits(t@.subrange(from as int, to as int)),
        r matches Some(v) ==> ({
            let dv = digits_val(t@.subrange(from as int, to as int));
            &&& v <= AMOUNT_CAP
            &&& (dv <= AMOUNT_CAP as nat ==> v as nat == dv)
            &&& (dv > AMOUNT_CAP as nat ==> v == AMOUNT_CAP)
        }),
{
    let ghost tt = t@;
    let mut ival: u64 = 0;
    let mut i: usize = from;
    while i < to
        invariant
            from <= i <= to <= tt.len(),
            t@ == tt,
            all_digits(tt.subrange(from as int, i as int)),
            ival <= AMOUNT_CAP,
            digits_val(tt.subrange(from as int, i as int)) <= AMOUNT_CAP as nat ==> ival as nat
                == digits_val(tt.subrange(from as int, i as int)),
            digits_val(tt.subrange(from as int, i as int)) > AMOUNT_CAP as nat ==> ival
                == AMOUNT_CAP,
        decreases to - i,
    {
        let b = t[i];
        if !byte_is_digit(b) {
            proof {
                assert(tt.subrange(from as int, to as int)[i as int - from as int] == tt[i as int]);
            }
            return None;
        }
        proof {
            let p = tt.subrange(from as int, i as int);
            let q = tt.subrange(from as int, i as int + 1);
            assert(q.drop_last() =~= p);
            assert(q.last() == tt[i as int]);
            assert(digits_val(q) == digits_val(p) * 10 + digit_value(tt[i as int]));
        }
        let d = (b - 48) as u64;
        ival = if ival >= AMOUNT_CAP {
            AMOUNT_CAP
        } else {
            let x = ival * 10 + d;
            if x > AMOUNT_CAP {
                AMOUNT_CAP
            } else {
                x
            }
        };
        i += 1;
    }
    proof {
        assert(tt.subrange(from as int, i as int) == tt.subrange(from as int, to as int));
    }
    Some(ival)
}

/// Reads at most six digits of `t` between `from` and `to` exactly; `None`
/// when a non-digit is met.
fn read_frac_digits(t: &Vec<u8>, from: usize, to: usize) -> (r: Option<u64>)
    requires
        from <= to <= t@.len(),
        to - from <= 6,
    ensures
        r is Some <==> all_digits(t@.subrange(from as int, to as int)),
        r matches Some(v) ==> v as nat == digits_val(t@.subrange(from as int, to as int)) && v
            < pow10((to - from) as nat),
{
    let ghost tt = t@;
    let mut fval: u64 = 0;
    let mut i: usize = from;
    while i < to
        invariant
            from <= i <= to <= tt.len(),
            to - from <= 6,
            t@ == tt,
            all_digits(tt.subrange(from as int, i as int)),
            fval as nat == digits_val(tt.subrange(from as int, i as int)),
            fval < pow10((i - from) as nat),
        decreases to - i,
    {
        let b = t[i];
        if !byte_is_digit(b) {
            proof {
                assert(tt.subrange(from as int, to as int)[i as int - from as int] == tt[i as int]);
            }
            return None;
        }
        proof {
            let p = tt.subrange(from as int, i as int);
            let q = tt.subrange(from as int, i as int + 1);
            assert(q.drop_last() =~= p);
            assert(q.last() == tt[i as int]);
            assert(digits_val(q) == digits_val(p) * 10 + digit_value(tt[i as int]));
            assert(pow10((i - from + 1) as nat) == 10 * pow10((i - from) as nat));
            lemma_pow10_le((i - from) as nat, 5);
            lemma_pow10_small();
        }
        fval = fval * 10 + (b - 48) as u64;
        i += 1;
    }
    proof {
        assert(tt.subrange(from as int, i as int) == tt.subrange(from as int, to as int));
    }
    Some(fval)
}

proof fn lemma_find_dot_props(s: Seq<u8>)
    ensures
        0 <= find_dot(s) <= s.len(),
        forall|j: int| 0 <= j < find_dot(s) ==> s[j] != 46,
        find_dot(s) < s.len() ==> s[find_dot(s)] == 46,
    decreases s.len(),
{
    if s.len() > 0 && s[0] != 46 {
        lemma_find_dot_props(s.drop_first());
        assert(forall|j: int| 1 <= j < find_dot(s) ==> s[j] == s.drop_first()[j - 1]);
    }
}

/// Convert a USD decimal string to a micro-unit integer (six implied decimal
/// places). The text may carry surrounding whitespace and a sign; it is
/// rejected when more than six digits follow the decimal point, when it is
/// not a decimal number, when it is negative and nonzero, or when its value
/// exceeds the largest representable amount.
#[verifier::rlimit(30)]
pub fn usd_to_amount(usd_str: &str) -> (r: Result<i64, String>)
    ensures
        ({
            let t = trim_ws(usd_str.spec_bytes());
            match r {
                Ok(v) => amount_accepted(t) && v == micro_value(t) as i64,
                Err(m) => !amount_accepted(t) && m@ == amount_error_text(t),
            }
        }),
{
    let bytes: Vec<u8> = usd_str.as_bytes_vec();
    let t = trimmed_copy(&bytes);
    let ghost tt = t@;
    let tn = t.len();

    // Locate the first dot and check the decimal count.
    let dot = find_first_dot(&t);
    if dot < tn && tn - dot - 1 > 6 {
        let mut m = String::from_str("Maximum 6 decimal places allowed (got ");
        let count = u64_to_string((tn - dot - 1) as u64);
        m.append(count.as_str());
        m.append(")");
        return Err(m);
    }

    // Sign and body layout.
    let sign_present = tn > 0 && (t[0] == 43 || t[0] == 45);
    let negative = tn > 0 && t[0] == 45;
    let sb: usize = if sign_present {
        1
    } else {
        0
    };
    let ghost body = number_body(tt);
    proof {
        assert(body =~= tt.skip(sb as int));
        lemma_find_dot_props(tt);
        if sign_present {
            assert(tt[0] != 46);
        }
        assert(forall|j: int| 0 <= j < dot - sb ==> body[j] == tt[j + sb]);
        lemma_find_dot(body, dot as int - sb as int);
    }
    let int_end: usize = if dot < tn {
        dot
    } else {
        tn
    };
    let fstart: usize = if dot < tn {
        dot + 1
    } else {
        tn
    };
    let flen: usize = tn - fstart;
    let ghost ints = int_digits(body);
    let ghost fracs = frac_digits(body);
    proof {
        assert(ints =~= tt.subrange(sb as int, int_end as int));
        if dot < tn {
            assert(fracs =~= tt.subrange(fstart as int, tn as int));
        } else {
            assert(fracs =~= tt.subrange(fstart as int, tn as int));
        }
    }

    // Read the integer part, capping the accumulated value above anything
    // whose micro-unit form could still be representable, and the fractional
    // part exactly.
    let ival = match read_int_digits(&t, sb, int_end) {
        Some(v) => v,
        None => {
            return Err(String::from_str("Invalid number format"));
        },
    };
    let fval = match read_frac_digits(&t, fstart, tn) {
        Some(v) => v,
        None => {
            return Err(String::from_str("Invalid number format"));
        },
    };

    // A number needs at least one digit.
    if int_end - sb == 0 && flen == 0 {
        return Err(String::from_str("Invalid number format"));
    }

    // A negative amount is rejected unless its magnitude is zero.
    proof {
        if digits_val(ints) > 0 {
            assert(micro_value(tt) >= digits_val(ints) * 1_000_000 >= 1_000_000);
        }
        if digits_val(fracs) > 0 {
            lemma_pow10_pos((6 - fracs.len()) as nat);
            lemma_mul_ge_one(digits_val(fracs), pow10((6 - fracs.len()) as nat));
        }
    }
    if negative && (ival > 0 || fval > 0) {
        return Err(String::from_str("Amount cannot be negative"));
    }

    // Range check and exact micro-unit value.
    if ival >= AMOUNT_CAP {
        proof {
            assert(digits_val(ints) >= AMOUNT_CAP as nat);
            assert(micro_value(tt) >= AMOUNT_CAP as nat * 1_000_000);
        }
        return Err(String::from_str("Amount exceeds the maximum supported value"));
    }
    let scale: u64 = match flen {
        0 => 1_000_000,
        1 => 100_000,
        2 => 10_000,
        3 => 1_000,
        4 => 100,
        5 => 10,
        _ => 1,
    };
    proof {
        lemma_pow10_small();
        assert(scale as nat == pow10((6 - flen) as nat));
        assert(fval < pow10(flen as nat));
        assert((fval as nat) * (scale as nat) < pow10(flen as nat) * pow10((6 - flen) as nat)) by {
            lemma_mul_strict_bound(fval as nat, pow10(flen as nat), scale as nat);
        }
        lemma_pow10_split(flen as nat);
    }
    let micro: u64 = ival * 1_000_000 + fval * scale;
    proof {
        assert(micro as nat == micro_value(tt));
    }
    if micro > 9_223_372_036_854_775_807 {
        return Err(String::from_str("Amount exceeds the maximum supported value"));
    }
    Ok(micro as i64)
}

proof fn lemma_pow10_le(a: nat, b: nat)
    requires
        a <= b,
    ensures
        pow10(a) <= pow10(b),
    decreases b,
{
    if a < b {
        lemma_pow10_le(a, (b - 1) as nat);
        lemma_pow10_pos((b - 1) as nat);
    }
}

proof fn lemma_mul_ge_one(a: nat, b: nat)
    requires
        a >= 1,
    ensures
        a * b >= b,
{
    assert(a * b >= b) by (nonlinear_arith)
        requires
            a >= 1,
    ;
}

proof fn lemma_pow10_pos(k: nat)
    ensures
        pow10(k) >= 1,
    decreases k,
{
    if k > 0 {
        lemma_pow10_pos((k - 1) as nat);
    }
}

proof fn lemma_pow10_small()
    ensures
        pow10(0) == 1,
        pow10(1) == 10,
        pow10(2) == 100,
        pow10(3) == 1_000,
        pow10(4) == 10_000,
        pow10(5) == 100_000,
        pow10(6) == 1_000_000,
{
    reveal_with_fuel(pow10, 8);
}

proof fn lemma_pow10_split(f: nat)
    requires
        f <= 6,
    ensures
        pow10(f) * pow10((6 - f) as nat) == 1_000_000,
{
    lemma_pow10_small();
    assert(pow10(f) * pow10((6 - f) as nat) == 1_000_000) by (nonlinear_arith)
        requires
            f <= 6,
            pow10(0) == 1,
            pow10(1) == 10,
            pow10(2) == 100,
            pow10(3) == 1_000,
            pow10(4) == 10_000,
            pow10(5) == 100_000,
            pow10(6) == 1_000_000,
            pow10(f) == pow10(f),
    ;
}

proof fn lemma_mul_strict_bound(a: nat, b: nat, c: nat)
    requires
        a < b,
        c >= 1,
    ensures
        a * c < b * c,
{
    assert(a * c < b * c) by (nonlinear_arith)
        requires
            a < b,
            c >= 1,
    ;
}

/// Format a micro-unit amount for display: an optional sign, the whole part
/// with comma-grouped thousands, a dot, and exactly six fractional digits.
pub open spec fn format_amount_spec(amount: int) -> Seq<char>
    recommends
        -i64::MAX <= amount <= i64::MAX,
{
    let sign: Seq<char> = if amount < 0 {
        seq!['-']
    } else {
        Seq::empty()
    };
    let abs = (if amount < 0 {
        -amount
    } else {
        amount
    }) as nat;
    sign + grouped_dec_str(abs / 1_000_000) + seq!['.'] + padded_dec_str(abs % 1_000_000, 6)
}

/// Render a micro-unit amount with comma-grouped thousands and six decimal
/// places.
pub fn format_amount(amount: i64) -> (r: String)
    requires
        amount != i64::MIN,
    ensures
        r@ == format_amount_spec(amount as int),
{
    let neg = amount < 0;
    let abs: u64 = if neg {
        (-amount) as u64
    } else {
        amount as u64
    };
    let mut s = if neg {
        let s0 = String::from_str("-");
        proof {
            reveal_strlit("-");
            assert("-"@ =~= seq!['-']);
        }
        s0
    } else {
        String::new()
    };
    let whole = u64_to_grouped_string(abs / 1_000_000);
    s.append(whole.as_str());
    s.append(".");
    proof {
        reveal_strlit(".");
        assert("."@ =~= seq!['.']);
    }
    let frac = u64_to_padded_string(abs % 1_000_000, 6);
    s.append(frac.as_str());
    proof {
        assert(s@ =~= format_amount_spec(amount as int));
    }
    s
}

} // verus!
