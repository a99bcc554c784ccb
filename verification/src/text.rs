//! Text utilities: whitespace stripping, decimal parsing into fixed
//! point, and decimal formatting out of fixed point.
//!
//! The probe tool answers with a short numeric line (for example
//! `"128.5\n"`); stripping whitespace and parsing that line are the
//! compute half of probing, so they live here, fully verified.

use vstd::prelude::*;

verus! {

/// The Unicode `White_Space` code points, the set `char::is_whitespace`
/// recognises.
pub open spec fn is_whitespace_char(c: char) -> bool {
    let u = c as u32;
    ||| u == 0x20
    ||| (0x09 <= u && u <= 0x0D)
    ||| u == 0x85
    ||| u == 0xA0
    ||| u == 0x1680
    ||| (0x2000 <= u && u <= 0x200A)
    ||| u == 0x2028
    ||| u == 0x2029
    ||| u == 0x202F
    ||| u == 0x205F
    ||| u == 0x3000
}

/// Decides `is_whitespace_char` on a concrete character.
pub fn char_is_whitespace(c: char) -> (r: bool)
    ensures
        r == is_whitespace_char(c),
{
    let u = c as u32;
    u == 0x20 || (0x09 <= u && u <= 0x0D) || u == 0x85 || u == 0xA0 || u == 0x1680 || (0x2000
        <= u && u <= 0x200A) || u == 0x2028 || u == 0x2029 || u == 0x202F || u == 0x205F || u
        == 0x3000
}

/// Relies on `String::push`: appends exactly the one character.
#[verifier::external_body]
fn push_char(s: &mut String, c: char)
    ensures
        final(s)@ == old(s)@ + seq![c],
{
    s.push(c)
}

/// The input with every whitespace character removed and all other
/// characters kept in order.
pub fn remove_whitespace(s: &str) -> (r: String)
    ensures
        r@ == s@.filter(|c: char| !is_whitespace_char(c)),
{
    let n = s.unicode_len();
    let mut out = String::new();
    let mut i: usize = 0;
    while i < n
        invariant
            n == s@.len(),
            i <= n,
            out@ == s@.subrange(0, i as int).filter(|c: char| !is_whitespace_char(c)),
        decreases n - i,
    {
        let c = s.get_char(i);
        proof {
            assert(s@.subrange(0, i + 1).drop_last() =~= s@.subrange(0, i as int));
            assert(s@.subrange(0, i + 1).last() == c);
        }
        if !char_is_whitespace(c) {
            push_char(&mut out, c);
        }
        proof {
            reveal_with_fuel(Seq::<_>::filter, 2);
            assert(out@ =~= s@.subrange(0, i + 1).filter(|c: char| !is_whitespace_char(c)));
        }
        i = i + 1;
    }
    proof {
        assert(s@.subrange(0, n as int) =~= s@);
    }
    out
}

/// An ASCII decimal digit.
pub open spec fn is_digit_char(c: char) -> bool {
    0x30 <= c as u32 && c as u32 <= 0x39
}

/// Numeric value of one decimal digit character.
pub open spec fn digit_val(c: char) -> int {
    c as u32 - 0x30
}

/// Every character of the sequence is a decimal digit.
pub open spec fn all_digits(s: Seq<char>) -> bool {
    forall|i: int| 0 <= i < s.len() ==> is_digit_char(#[trigger] s[i])
}

/// Value of a sequence of decimal digits read most significant first.
pub open spec fn digits_val(s: Seq<char>) -> int
    decreases s.len(),
{
    if s.len() == 0 {
        0
    } else {
        digits_val(s.drop_last()) * 10 + digit_val(s.last())
    }
}

/// Index of the first occurrence of `c` in `s`, or -1 when absent.
pub open spec fn find_char(s: Seq<char>, c: char) -> int
    decreases s.len(),
{
    if s.len() == 0 {
        -1
    } else if s[0] == c {
        0
    } else if find_char(s.skip(1), c) == -1 {
        -1
    } else {
        find_char(s.skip(1), c) + 1
    }
}

/// Ten to the power `n`.
pub open spec fn pow10(n: nat) -> int
    decreases n,
{
    if n == 0 {
        1
    } else {
        10 * pow10((n - 1) as nat)
    }
}

proof fn lemma_pow10_pos(n: nat)
    ensures
        pow10(n) >= 1,
    decreases n,
{
    if n > 0 {
        lemma_pow10_pos((n - 1) as nat);
    }
}

proof fn lemma_pow10_monotone(m: nat, n: nat)
    requires
        m <= n,
    ensures
        pow10(m) <= pow10(n),
    decreases n,
{
    if m < n {
        lemma_pow10_monotone(m, (n - 1) as nat);
        lemma_pow10_pos((n - 1) as nat);
    }
}

proof fn lemma_pow10_15()
    ensures
        pow10(15) == 1_000_000_000_000_000,
{
    reveal_with_fuel(pow10, 17);
}

/// A sequence of decimal digits is worth less than ten to its length.
proof fn lemma_digits_val_bound(s: Seq<char>)
    requires
        all_digits(s),
    ensures
        0 <= digits_val(s) < pow10(s.len()),
    decreases s.len(),
{
    if s.len() > 0 {
        assert(all_digits(s.drop_last()));
        lemma_digits_val_bound(s.drop_last());
        assert(pow10(s.len()) == 10 * pow10((s.len() - 1) as nat));
    }
}

proof fn lemma_find_char_at(s: Seq<char>, c: char, i: int)
    requires
        0 <= i < s.len(),
        s[i] == c,
        forall|j: int| 0 <= j < i ==> s[j] != c,
    ensures
        find_char(s, c) == i,
    decreases i,
{
    if i > 0 {
        lemma_find_char_at(s.skip(1), c, i - 1);
    }
}

proof fn lemma_find_char_none(s: Seq<char>, c: char)
    requires
        forall|j: int| 0 <= j < s.len() ==> s[j] != c,
    ensures
        find_char(s, c) == -1,
    decreases s.len(),
{
    if s.len() > 0 {
        lemma_find_char_none(s.skip(1), c);
    }
}

/// A well-formed integer part: one to fifteen decimal digits.
pub open spec fn valid_int_digits(s: Seq<char>) -> bool {
    1 <= s.len() <= 15 && all_digits(s)
}

/// Value, in thousandths, of a fraction written after the decimal
/// point: only the first three digits count.
pub open spec fn spec_frac_milli(f: Seq<char>) -> int {
    if f.len() >= 3 {
        digits_val(f.subrange(0, 3))
    } else {
        digits_val(f) * pow10((3 - f.len()) as nat)
    }
}

/// What parsing a plain decimal numeral into thousandths yields:
/// `Some` exactly for strings of the shape `digits` or
/// `digits '.' digits` whose integer part has at most fifteen digits,
/// the fraction truncated after its third digit.
pub open spec fn spec_parse_milli(s: Seq<char>) -> Option<int> {
    let dot = find_char(s, '.');
    if dot == -1 {
        if valid_int_digits(s) {
            Some(digits_val(s) * 1000)
        } else {
            None
        }
    } else {
        let ip = s.subrange(0, dot);
        let fp = s.subrange(dot + 1, s.len() as int);
        if valid_int_digits(ip) && all_digits(fp) {
            Some(digits_val(ip) * 1000 + spec_frac_milli(fp))
        } else {
            None
        }
    }
}

/// True when every character of `s` between `from` and `to` is a digit.
fn check_digits(s: &str, from: usize, to: usize) -> (r: bool)
    requires
        from <= to <= s@.len(),
    ensures
        r == all_digits(s@.subrange(from as int, to as int)),
{
    let ghost sub = s@.subrange(from as int, to as int);
    let mut i: usize = from;
    while i < to
        invariant
            from <= i <= to <= s@.len(),
            sub == s@.subrange(from as int, to as int),
            forall|j: int| 0 <= j < i - from ==> is_digit_char(#[trigger] sub[j]),
        decreases to - i,
    {
        let c = s.get_char(i);
        let u = c as u32;
        if u < 0x30 || u > 0x39 {
            proof {
                assert(sub[i - from as int] == s@[i as int]);
            }
            return false;
        }
        proof {
            assert(sub[i - from as int] == s@[i as int]);
        }
        i = i + 1;
    }
    true
}

/// Value of the digits of `s` between `from` and `to`.
fn digits_value(s: &str, from: usize, to: usize) -> (r: u64)
    requires
        from <= to <= s@.len(),
        to - from <= 15,
        all_digits(s@.subrange(from as int, to as int)),
    ensures
        r as int == digits_val(s@.subrange(from as int, to as int)),
        r < 1_000_000_000_000_000,
{
    let ghost sub = s@.subrange(from as int, to as int);
    let mut acc: u64 = 0;
    let mut i: usize = from;
    while i < to
        invariant
            from <= i <= to <= s@.len(),
            to - from <= 15,
            sub == s@.subrange(from as int, to as int),
            all_digits(sub),
            acc as int == digits_val(sub.subrange(0, i - from)),
            acc < pow10((i - from) as nat),
        decreases to - i,
    {
        let c = s.get_char(i);
        proof {
            assert(sub[i - from as int] == s@[i as int]);
            assert(pow10((i + 1 - from) as nat) == 10 * pow10((i - from) as nat));
            lemma_pow10_monotone((i + 1 - from) as nat, 15);
            lemma_pow10_15();
            assert(sub.subrange(0, i + 1 - from).drop_last() =~= sub.subrange(0, i - from));
        }
        let d: u64 = (c as u32 - 0x30) as u64;
        acc = acc * 10 + d;
        i = i + 1;
    }
    proof {
        assert(sub.subrange(0, to - from) =~= sub);
        lemma_pow10_monotone((to - from) as nat, 15);
        lemma_pow10_15();
    }
    acc
}

/// Parses a plain decimal numeral (`digits`, or `digits '.' digits`)
/// into thousandths, truncating the fraction after three digits.
/// Returns `None` on any other shape, or when the integer part is
/// longer than fifteen digits.
pub fn parse_milli(s: &str) -> (r: Option<u64>)
    ensures
        (r is Some) == (spec_parse_milli(s@) is Some),
        r is Some ==> Some(r.unwrap() as int) == spec_parse_milli(s@),
{
    let n = s.unicode_len();
    let mut dot: usize = n;
    let mut i: usize = 0;
    while i < n
        invariant
            i <= n,
            n == s@.len(),
            dot == n || (dot < i && s@[dot as int] == '.'),
            dot == n ==> forall|j: int| 0 <= j < i ==> s@[j] != '.',
            dot < n ==> forall|j: int| 0 <= j < dot ==> s@[j] != '.',
        decreases n - i,
    {
        if dot == n && s.get_char(i) == '.' {
            dot = i;
        }
        i = i + 1;
    }
    proof {
        if dot == n {
            lemma_find_char_none(s@, '.');
        } else {
            lemma_find_char_at(s@, '.', dot as int);
        }
        assert(s@.subrange(0, n as int) =~= s@);
    }
    let ip_to = dot;
    if ip_to < 1 || ip_to > 15 {
        return None;
    }
    if !check_digits(s, 0, ip_to) {
        return None;
    }
    let ival = digits_value(s, 0, ip_to);
    if dot == n {
        return Some(ival * 1000);
    }
    let ghost fp = s@.subrange(dot + 1, n as int);
    if !check_digits(s, dot + 1, n) {
        return None;
    }
    let flen = n - (dot + 1);
    let ftake: usize = if flen >= 3 {
        3
    } else {
        flen
    };
    let fval = digits_value(s, dot + 1, dot + 1 + ftake);
    proof {
        assert(s@.subrange(dot + 1, dot + 1 + ftake) =~= fp.subrange(0, ftake as int));
        if flen >= 3 {
            assert(fp.subrange(0, 3) =~= fp.subrange(0, ftake as int));
        } else {
            assert(fp.subrange(0, ftake as int) =~= fp);
            reveal_with_fuel(pow10, 4);
        }
        lemma_digits_val_bound(fp.subrange(0, ftake as int));
        reveal_with_fuel(pow10, 4);
    }
    let fmul: u64 = if flen >= 3 {
        1
    } else if flen == 2 {
        10
    } else if flen == 1 {
        100
    } else {
        1000
    };
    Some(ival * 1000 + fval * fmul)
}

/// The character for one decimal digit value.
pub open spec fn digit_char(d: int) -> char {
    if d == 0 {
        '0'
    } else if d == 1 {
        '1'
    } else if d == 2 {
        '2'
    } else if d == 3 {
        '3'
    } else if d == 4 {
        '4'
    } else if d == 5 {
        '5'
    } else if d == 6 {
        '6'
    } else if d == 7 {
        '7'
    } else if d == 8 {
        '8'
    } else {
        '9'
    }
}

/// Decimal numeral of a non-negative integer, most significant digit
/// first, with no leading zero except for zero itself.
pub open spec fn spec_digits(n: int) -> Seq<char>
    decreases n,
    when 0 <= n
    via spec_digits_decreases
{
    if n < 10 {
        seq![digit_char(n)]
    } else {
        spec_digits(n / 10) + seq![digit_char(n % 10)]
    }
}

#[via_fn]
proof fn spec_digits_decreases(n: int) {
    if n >= 10 {
        vstd::arithmetic::div_mod::lemma_div_decreases(n, 10);
        vstd::arithmetic::div_mod::lemma_div_pos_is_pos(n, 10);
    }
}

/// Appends the character of one digit value.
fn append_digit(out: &mut String, d: u64)
    requires
        d < 10,
    ensures
        final(out)@ == old(out)@ + seq![digit_char(d as int)],
{
    if d == 0 {
        proof {
            reveal_strlit("0");
            assert("0"@ =~= seq![digit_char(0)]);
        }
        out.append("0");
    } else if d == 1 {
        proof {
            reveal_strlit("1");
            assert("1"@ =~= seq![digit_char(1)]);
        }
        out.append("1");
    } else if d == 2 {
        proof {
            reveal_strlit("2");
            assert("2"@ =~= seq![digit_char(2)]);
        }
        out.append("2");
    } else if d == 3 {
        proof {
            reveal_strlit("3");
            assert("3"@ =~= seq![digit_char(3)]);
        }
        out.append("3");
    } else if d == 4 {
        proof {
            reveal_strlit("4");
            assert("4"@ =~= seq![digit_char(4)]);
        }
        out.append("4");
    } else if d == 5 {
        proof {
            reveal_strlit("5");
            assert("5"@ =~= seq![digit_char(5)]);
        }
        out.append("5");
    } else if d == 6 {
        proof {
            reveal_strlit("6");
            assert("6"@ =~= seq![digit_char(6)]);
        }
        out.append("6");
    } else if d == 7 {
        proof {
            reveal_strlit("7");
            assert("7"@ =~= seq![digit_char(7)]);
        }
        out.append("7");
    } else if d == 8 {
        proof {
            reveal_strlit("8");
            assert("8"@ =~= seq![digit_char(8)]);
        }
        out.append("8");
    } else {
        proof {
            reveal_strlit("9");
            assert("9"@ =~= seq![digit_char(9)]);
        }
        out.append("9");
    }
}

/// Decimal numeral of `n`.
pub fn u64_to_string(n: u64) -> (r: String)
    ensures
        r@ == spec_digits(n as int),
    decreases n,
{
    if n < 10 {
        let mut out = String::new();
        append_digit(&mut out, n);
        out
    } else {
        proof {
            vstd::arithmetic::div_mod::lemma_div_decreases(n as int, 10);
            vstd::arithmetic::div_mod::lemma_div_pos_is_pos(n as int, 10);
        }
        let mut out = u64_to_string(n / 10);
        append_digit(&mut out, n % 10);
        out
    }
}

/// Decimal rendering of a fixed-point count of thousandths: the whole
/// part, a point, and exactly three fraction digits.
pub open spec fn spec_format_milli(n: int) -> Seq<char> {
    spec_digits(n / 1000) + seq!['.'] + seq![
        digit_char(n % 1000 / 100),
        digit_char(n % 1000 / 10 % 10),
        digit_char(n % 1000 % 10),
    ]
}

/// Renders a count of thousandths as `whole.fff`.
pub fn format_milli(n: u64) -> (r: String)
    ensures
        r@ == spec_format_milli(n as int),
{
    let mut out = u64_to_string(n / 1000);
    proof {
        reveal_strlit(".");
        assert("."@ =~= seq!['.']);
    }
    out.append(".");
    let m = n % 1000;
    append_digit(&mut out, m / 100);
    append_digit(&mut out, m / 10 % 10);
    append_digit(&mut out, m % 10);
    proof {
        assert(out@ =~= spec_format_milli(n as int));
    }
    out
}

} // verus!
