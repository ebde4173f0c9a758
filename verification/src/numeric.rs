//! Numeric token values.
//!
//! The open (non-enumerable) grammar positions accept numbers instead of
//! catalog aliases: a decimal amount (a gain, an envelope time) or a
//! non-negative index (an LFO or sequence number).  A decimal amount is kept
//! exactly as typed, as integer data — sign, integer part, and the fractional
//! digits with their count — so the engine never touches floating point.
//!
//! The accepted numerals are: for an index, one or more decimal digits whose
//! value fits in 64 bits; for a decimal amount, an optional leading minus
//! sign, then digits with at most one decimal point and at least one digit,
//! where the digits before and after the point each fit in 64 bits as a
//! number.

use vstd::prelude::*;

verus! {

/// A decimal numeral, stored exactly: `-12.05` is
/// `{ negative: true, int_part: 12, frac_part: 5, frac_len: 2 }`.
#[derive(Clone, Copy, PartialEq, Eq, Structural, Debug)]
pub struct Decimal {
    /// True when the numeral carries a leading minus sign.
    pub negative: bool,
    /// The digits before the decimal point, as a number.
    pub int_part: u64,
    /// The digits after the decimal point, as a number.
    pub frac_part: u64,
    /// How many digits stand after the decimal point (leading zeros count).
    pub frac_len: u64,
}

/// 10 to the `k`-th power.
pub open spec fn pow10(k: nat) -> nat
    decreases k,
{
    if k == 0 {
        1
    } else {
        10 * pow10((k - 1) as nat)
    }
}

/// A well-formed decimal: the fractional digits fit their declared count.
pub open spec fn decimal_wf(d: Decimal) -> bool {
    d.frac_part < pow10(d.frac_len as nat)
}

pub open spec fn is_digit(c: char) -> bool {
    '0' <= c && c <= '9'
}

/// The numeric value of one digit character.
pub open spec fn digit_val(c: char) -> nat {
    if c == '0' {
        0
    } else if c == '1' {
        1
    } else if c == '2' {
        2
    } else if c == '3' {
        3
    } else if c == '4' {
        4
    } else if c == '5' {
        5
    } else if c == '6' {
        6
    } else if c == '7' {
        7
    } else if c == '8' {
        8
    } else {
        9
    }
}

/// The digit character for a value below ten.
pub open spec fn digit_char(d: nat) -> char {
    if d == 0 {
        '0'
    } else if d == 1 {
        '1'
    } else if d == 2 {
        '2'
    } else if d == 3 {
        '3'
    } else if d == 4 {
        '4'
    } else if d == 5 {
        '5'
    } else if d == 6 {
        '6'
    } else if d == 7 {
        '7'
    } else if d == 8 {
        '8'
    } else {
        '9'
    }
}

pub open spec fn all_digits(s: Seq<char>) -> bool {
    forall|i: int| 0 <= i < s.len() ==> is_digit(#[trigger] s[i])
}

/// The number a digit string denotes, most significant digit first.
pub open spec fn digits_val(s: Seq<char>) -> nat
    decreases s.len(),
{
    if s.len() == 0 {
        0
    } else {
        digits_val(s.drop_last()) * 10 + digit_val(s.last())
    }
}

/// A digit string read as a 64-bit number; `None` when a character is no
/// digit or the value does not fit.  The empty string reads as zero.
pub open spec fn spec_digits_to_u64(s: Seq<char>) -> Option<u64> {
    if all_digits(s) && digits_val(s) < 0x10000000000000000 {
        Some(digits_val(s) as u64)
    } else {
        None
    }
}

/// The index rule of the open numeric kinds: one or more digits, value in 64
/// bits.
pub open spec fn spec_parse_index(s: Seq<char>) -> Option<u64> {
    if s.len() == 0 {
        None
    } else {
        spec_digits_to_u64(s)
    }
}

/// The first index of a decimal point, or the length when there is none.
pub open spec fn dot_pos_from(s: Seq<char>, i: int) -> int
    decreases s.len() - i,
{
    if i < 0 || i >= s.len() {
        s.len() as int
    } else if s[i] == '.' {
        i
    } else {
        dot_pos_from(s, i + 1)
    }
}

/// The decimal rule: an optional minus sign, then digits with at most one
/// decimal point and at least one digit.  Every digit group must fit in 64
/// bits as a number.
pub open spec fn spec_parse_decimal(s: Seq<char>) -> Option<Decimal> {
    let negative = s.len() > 0 && s[0] == '-';
    let body = if negative {
        s.drop_first()
    } else {
        s
    };
    let d = dot_pos_from(body, 0);
    let int_digits = body.take(d);
    let frac_digits = if d < body.len() {
        body.skip(d + 1)
    } else {
        Seq::<char>::empty()
    };
    if int_digits.len() + frac_digits.len() == 0 {
        None
    } else {
        match (spec_digits_to_u64(int_digits), spec_digits_to_u64(frac_digits)) {
            (Some(int_part), Some(frac_part)) => Some(
                Decimal {
                    negative,
                    int_part,
                    frac_part,
                    frac_len: frac_digits.len() as u64,
                },
            ),
            _ => None,
        }
    }
}

pub fn is_digit_exec(c: char) -> (b: bool)
    ensures
        b == is_digit(c),
{
    '0' <= c && c <= '9'
}

/// The value of a digit character.
pub fn digit_val_exec(c: char) -> (d: u64)
    requires
        is_digit(c),
    ensures
        d == digit_val(c),
        d < 10,
{
    if c == '0' {
        0
    } else if c == '1' {
        1
    } else if c == '2' {
        2
    } else if c == '3' {
        3
    } else if c == '4' {
        4
    } else if c == '5' {
        5
    } else if c == '6' {
        6
    } else if c == '7' {
        7
    } else if c == '8' {
        8
    } else {
        assert(c == '9');
        9
    }
}

proof fn lemma_digits_val_grows(s: Seq<char>, i: int)
    requires
        0 <= i <= s.len(),
    ensures
        digits_val(s) >= digits_val(s.take(i)),
    decreases s.len() - i,
{
    if i < s.len() {
        lemma_digits_val_grows(s, i + 1);
        assert(s.take(i + 1).drop_last() =~= s.take(i));
        assert(digits_val(s.take(i + 1)) == digits_val(s.take(i)) * 10 + digit_val(
            s.take(i + 1).last(),
        ));
    } else {
        assert(s.take(i) =~= s);
    }
}

/// Reads a run of digits as a 64-bit number.
fn digits_to_u64(s: &Vec<char>, from: usize, to: usize) -> (r: Option<u64>)
    requires
        from <= to <= s@.len(),
    ensures
        r == spec_digits_to_u64(s@.subrange(from as int, to as int)),
{
    let ghost digits: Seq<char> = s@.subrange(from as int, to as int);
    let mut acc: u64 = 0;
    let mut i: usize = from;
    assert(digits.take(0) =~= Seq::<char>::empty());
    while i < to
        invariant
            from <= i <= to <= s@.len(),
            digits == s@.subrange(from as int, to as int),
            all_digits(digits.take(i - from)),
            acc == digits_val(digits.take(i - from)),
        decreases to - i,
    {
        let c = s[i];
        if !is_digit_exec(c) {
            assert(!is_digit(digits[i - from]));
            return None;
        }
        let d = digit_val_exec(c);
        proof {
            assert(digits.take(i + 1 - from).drop_last() =~= digits.take(i - from));
            assert(digits.take(i + 1 - from).last() == digits[i - from]);
        }
        if acc > 1844674407370955161 || (acc == 1844674407370955161 && d > 5) {
            proof {
                assert(digits_val(digits.take(i + 1 - from)) == acc * 10 + d);
                assert(digits_val(digits.take(i + 1 - from)) >= 0x10000000000000000);
                lemma_digits_val_grows(digits, i + 1 - from);
            }
            return None;
        }
        acc = acc * 10 + d;
        i = i + 1;
    }
    assert(digits.take(to - from) =~= digits);
    Some(acc)
}

/// Reads an index numeral: one or more digits, value in 64 bits.
pub fn parse_index(s: &Vec<char>) -> (r: Option<u64>)
    ensures
        r == spec_parse_index(s@),
{
    if s.len() == 0 {
        return None;
    }
    let r = digits_to_u64(s, 0, s.len());
    proof {
        assert(s@.subrange(0, s@.len() as int) =~= s@);
    }
    r
}

/// Reads a decimal numeral, exactly as typed.
pub fn parse_decimal(s: &Vec<char>) -> (r: Option<Decimal>)
    ensures
        r == spec_parse_decimal(s@),
{
    let negative = s.len() > 0 && s[0] == '-';
    let start: usize = if negative {
        1
    } else {
        0
    };
    let ghost body: Seq<char> = if negative {
        s@.drop_first()
    } else {
        s@
    };
    proof {
        assert(body =~= s@.subrange(start as int, s@.len() as int));
    }
    // find the decimal point
    let n = s.len();
    let mut dot: usize = start;
    while dot < n && s[dot] != '.'
        invariant
            start <= dot <= n == s@.len(),
            body == s@.subrange(start as int, s@.len() as int),
            dot_pos_from(body, 0) == dot_pos_from(body, dot - start),
        decreases n - dot,
    {
        dot = dot + 1;
    }
    proof {
        if dot < n {
            assert(body[dot - start] == '.');
            assert(dot_pos_from(body, 0) == dot - start);
        } else {
            assert(dot_pos_from(body, 0) == body.len() as int);
        }
    }
    let ghost d: int = dot_pos_from(body, 0);
    let ghost int_digits: Seq<char> = body.take(d);
    let ghost frac_digits: Seq<char> = if d < body.len() {
        body.skip(d + 1)
    } else {
        Seq::<char>::empty()
    };
    let int_len: usize = dot - start;
    let frac_len: usize = if dot < n {
        n - dot - 1
    } else {
        0
    };
    if int_len + frac_len == 0 {
        return None;
    }
    let int_part = match digits_to_u64(s, start, dot) {
        Some(v) => v,
        None => {
            proof {
                assert(s@.subrange(start as int, dot as int) =~= int_digits);
            }
            return None;
        },
    };
    proof {
        assert(s@.subrange(start as int, dot as int) =~= int_digits);
    }
    if dot < n {
        let frac_part = match digits_to_u64(s, dot + 1, n) {
            Some(v) => v,
            None => {
                proof {
                    assert(s@.subrange(dot + 1, n as int) =~= frac_digits);
                }
                return None;
            },
        };
        proof {
            assert(s@.subrange(dot + 1, n as int) =~= frac_digits);
        }
        Some(
            Decimal {
                negative,
                int_part,
                frac_part,
                frac_len: frac_len as u64,
            },
        )
    } else {
        Some(Decimal { negative, int_part, frac_part: 0, frac_len: 0 })
    }
}

/// The decimal digits of a number, most significant first; zero is "0".
pub open spec fn dec_digits(n: nat) -> Seq<char>
    decreases n,
{
    if n < 10 {
        seq![digit_char(n)]
    } else {
        dec_digits(n / 10).push(digit_char(n % 10))
    }
}

/// Exactly `len` digits, the value's lowest `len` digits with leading zeros.
pub open spec fn frac_digit_seq(n: nat, len: nat) -> Seq<char>
    decreases len,
{
    if len == 0 {
        Seq::<char>::empty()
    } else {
        frac_digit_seq(n / 10, (len - 1) as nat).push(digit_char(n % 10))
    }
}

/// How a decimal value is written back out: sign, integer digits, and — when
/// fractional digits exist — a point and exactly `frac_len` digits.
pub open spec fn spec_render_decimal(d: Decimal) -> Seq<char> {
    let sign = if d.negative {
        seq!['-']
    } else {
        Seq::<char>::empty()
    };
    let frac = if d.frac_len > 0 {
        seq!['.'] + frac_digit_seq(d.frac_part as nat, d.frac_len as nat)
    } else {
        Seq::<char>::empty()
    };
    sign + dec_digits(d.int_part as nat) + frac
}

/// The digit character of a value below ten, as a string slice.
fn digit_str(d: u64) -> (r: &'static str)
    requires
        d < 10,
    ensures
        r@ == seq![digit_char(d as nat)],
{
    let r: &'static str = if d == 0 {
        "0"
    } else if d == 1 {
        "1"
    } else if d == 2 {
        "2"
    } else if d == 3 {
        "3"
    } else if d == 4 {
        "4"
    } else if d == 5 {
        "5"
    } else if d == 6 {
        "6"
    } else if d == 7 {
        "7"
    } else if d == 8 {
        "8"
    } else {
        "9"
    };
    proof {
        reveal_strlit("0");
        reveal_strlit("1");
        reveal_strlit("2");
        reveal_strlit("3");
        reveal_strlit("4");
        reveal_strlit("5");
        reveal_strlit("6");
        reveal_strlit("7");
        reveal_strlit("8");
        reveal_strlit("9");
        assert(r@ =~= seq![digit_char(d as nat)]);
    }
    r
}

/// Appends a number's decimal digits.
pub fn push_digits(out: &mut String, n: u64)
    ensures
        final(out)@ == old(out)@ + dec_digits(n as nat),
    decreases n,
{
    if n < 10 {
        out.append(digit_str(n));
    } else {
        push_digits(out, n / 10);
        out.append(digit_str(n % 10));
        proof {
            assert(old(out)@ + dec_digits((n / 10) as nat) + seq![digit_char((n % 10) as nat)]
                =~= old(out)@ + dec_digits(n as nat));
        }
    }
}

/// Appends exactly `len` digits of a fractional part, leading zeros kept.
fn push_frac_digits(out: &mut String, n: u64, len: u64)
    ensures
        final(out)@ == old(out)@ + frac_digit_seq(n as nat, len as nat),
    decreases len,
{
    if len == 0 {
        assert(old(out)@ + frac_digit_seq(n as nat, 0) =~= old(out)@);
    } else {
        push_frac_digits(out, n / 10, len - 1);
        out.append(digit_str(n % 10));
        proof {
            assert(old(out)@ + frac_digit_seq((n / 10) as nat, (len - 1) as nat) + seq![
                digit_char((n % 10) as nat),
            ] =~= old(out)@ + frac_digit_seq(n as nat, len as nat));
        }
    }
}

/// Appends a decimal value in its written form.
pub fn push_decimal(out: &mut String, d: &Decimal)
    ensures
        final(out)@ == old(out)@ + spec_render_decimal(*d),
{
    if d.negative {
        out.append("-");
        proof {
            reveal_strlit("-");
            assert("-"@ =~= seq!['-']);
        }
    }
    push_digits(out, d.int_part);
    if d.frac_len > 0 {
        out.append(".");
        proof {
            reveal_strlit(".");
            assert("."@ =~= seq!['.']);
        }
        push_frac_digits(out, d.frac_part, d.frac_len);
    }
    proof {
        assert(out@ =~= old(out)@ + spec_render_decimal(*d));
    }
}

proof fn lemma_digit_char_val(d: nat)
    requires
        d < 10,
    ensures
        is_digit(digit_char(d)),
        digit_val(digit_char(d)) == d,
{
}

proof fn lemma_dec_digits(n: nat)
    ensures
        all_digits(dec_digits(n)),
        dec_digits(n).len() >= 1,
        digits_val(dec_digits(n)) == n,
        is_digit(dec_digits(n)[0]),
    decreases n,
{
    if n < 10 {
        lemma_digit_char_val(n);
        let s = dec_digits(n);
        assert(s.drop_last() =~= Seq::<char>::empty());
        assert(digits_val(Seq::<char>::empty()) == 0);
        assert(s.last() == digit_char(n));
        assert(digits_val(s) == digit_val(digit_char(n)));
        assert forall|i: int| 0 <= i < s.len() implies is_digit(#[trigger] s[i]) by {
            assert(s[i] == digit_char(n));
        }
    } else {
        lemma_dec_digits(n / 10);
        lemma_digit_char_val(n % 10);
        vstd::arithmetic::div_mod::lemma_fundamental_div_mod(n as int, 10);
        let s = dec_digits(n);
        let head = dec_digits(n / 10);
        assert(s == head.push(digit_char(n % 10)));
        assert(s.drop_last() =~= head);
        assert(s.last() == digit_char(n % 10));
        assert(digits_val(s) == digits_val(head) * 10 + digit_val(digit_char(n % 10)));
        assert forall|i: int| 0 <= i < s.len() implies is_digit(#[trigger] s[i]) by {
            if i < head.len() {
                assert(s[i] == head[i]);
            } else {
                assert(s[i] == digit_char(n % 10));
            }
        }
        assert(s[0] == head[0]);
    }
}

proof fn lemma_frac_digit_seq(n: nat, len: nat)
    requires
        n < pow10(len),
    ensures
        all_digits(frac_digit_seq(n, len)),
        frac_digit_seq(n, len).len() == len,
        digits_val(frac_digit_seq(n, len)) == n,
    decreases len,
{
    if len == 0 {
        assert(frac_digit_seq(n, 0) =~= Seq::<char>::empty());
    } else {
        assert(pow10(len) == 10 * pow10((len - 1) as nat));
        vstd::arithmetic::div_mod::lemma_multiply_divide_lt(
            n as int,
            10,
            pow10((len - 1) as nat) as int,
        );
        lemma_frac_digit_seq(n / 10, (len - 1) as nat);
        lemma_digit_char_val(n % 10);
        vstd::arithmetic::div_mod::lemma_fundamental_div_mod(n as int, 10);
        let s = frac_digit_seq(n, len);
        let head = frac_digit_seq(n / 10, (len - 1) as nat);
        assert(s == head.push(digit_char(n % 10)));
        assert(s.drop_last() =~= head);
        assert(s.last() == digit_char(n % 10));
        assert(digits_val(s) == digits_val(head) * 10 + digit_val(digit_char(n % 10)));
        assert forall|i: int| 0 <= i < s.len() implies is_digit(#[trigger] s[i]) by {
            if i < head.len() {
                assert(s[i] == head[i]);
            } else {
                assert(s[i] == digit_char(n % 10));
            }
        }
    }
}

proof fn lemma_dot_pos(s: Seq<char>, i: int, k: int)
    requires
        0 <= i <= k <= s.len(),
        forall|j: int| i <= j < k ==> s[j] != '.',
        k < s.len() ==> s[k] == '.',
    ensures
        dot_pos_from(s, i) == if k < s.len() {
            k
        } else {
            s.len() as int
        },
    decreases k - i,
{
    if i < k {
        lemma_dot_pos(s, i + 1, k);
    }
}

/// Writing a well-formed decimal out and reading it back yields the same
/// value: the written form is never ambiguous.
pub proof fn lemma_decimal_round_trip(d: Decimal)
    requires
        decimal_wf(d),
    ensures
        spec_parse_decimal(spec_render_decimal(d)) == Some(d),
{
    let r = spec_render_decimal(d);
    let ints = dec_digits(d.int_part as nat);
    let frac = frac_digit_seq(d.frac_part as nat, d.frac_len as nat);
    lemma_dec_digits(d.int_part as nat);
    lemma_frac_digit_seq(d.frac_part as nat, d.frac_len as nat);
    // a digit is never a minus sign or a dot
    assert(is_digit(ints[0]) ==> ints[0] != '-');
    // the sign is recognised exactly
    if d.negative {
        assert(r[0] == '-');
    } else {
        assert(r[0] == ints[0]);
    }
    let body = if r.len() > 0 && r[0] == '-' {
        r.drop_first()
    } else {
        r
    };
    if d.frac_len > 0 {
        if d.negative {
            assert(body =~= ints + seq!['.'] + frac);
        } else {
            assert(body =~= ints + seq!['.'] + frac);
        }
        let k = ints.len() as int;
        assert forall|j: int| 0 <= j < k implies body[j] != '.' by {
            assert(body[j] == ints[j]);
            assert(is_digit(ints[j]));
        }
        assert(body[k] == '.');
        lemma_dot_pos(body, 0, k);
        assert(body.take(k) =~= ints);
        assert(body.skip(k + 1) =~= frac);
        assert(spec_digits_to_u64(ints) == Some(d.int_part));
        assert(spec_digits_to_u64(frac) == Some(d.frac_part));
        assert(spec_parse_decimal(r) == Some(d));
    } else {
        // no fractional digits are written, and well-formedness makes the
        // fractional part zero
        assert(pow10(0) == 1);
        assert(d.frac_part == 0);
        if d.negative {
            assert(body =~= ints);
        } else {
            assert(body =~= ints);
        }
        let k = ints.len() as int;
        assert forall|j: int| 0 <= j < k implies body[j] != '.' by {
            assert(body[j] == ints[j]);
            assert(is_digit(ints[j]));
        }
        lemma_dot_pos(body, 0, k);
        assert(body.take(k) =~= ints);
        assert(spec_digits_to_u64(ints) == Some(d.int_part));
        assert(all_digits(Seq::<char>::empty()) && digits_val(Seq::<char>::empty()) == 0);
        assert(spec_digits_to_u64(Seq::<char>::empty()) == Some(0u64));
        assert(spec_parse_decimal(r) == Some(d));
    }
}

/// An index written out reads back as itself.
pub proof fn lemma_index_round_trip(n: u64)
    ensures
        spec_parse_index(dec_digits(n as nat)) == Some(n),
{
    lemma_dec_digits(n as nat);
}

} // verus!
