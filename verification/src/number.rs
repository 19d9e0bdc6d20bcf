//! Decimal numbers as text: writing integers out and recognising integer and
//! floating-point literals.

use vstd::prelude::*;

verus! {

/// Whether `c` is one of the ASCII digits.
pub open spec fn is_digit(c: char) -> bool {
    48 <= c as u32 <= 57
}

/// The digit that `c` stands for.
pub open spec fn digit_value(c: char) -> int {
    c as u32 - 48
}

/// The character for the digit `d`.
pub open spec fn digit_char(d: int) -> char {
    ((48 + d) as u8) as char
}

/// `n` in decimal, without sign or leading zeros.
pub open spec fn decimal(n: nat) -> Seq<char>
    decreases n,
{
    if n < 10 {
        seq![digit_char(n as int)]
    } else {
        decimal(n / 10).push(digit_char((n % 10) as int))
    }
}

/// `n` in decimal, with a minus sign where it is negative.
pub open spec fn signed_decimal(n: int) -> Seq<char> {
    if n < 0 {
        seq!['-'] + decimal((-n) as nat)
    } else {
        decimal(n as nat)
    }
}

/// Whether every character of `s` is a digit.
pub open spec fn all_digits(s: Seq<char>) -> bool {
    forall|i: int| 0 <= i < s.len() ==> is_digit(#[trigger] s[i])
}

/// The number that the digits of `s` spell.
pub open spec fn digits_value(s: Seq<char>) -> nat
    decreases s.len(),
{
    if s.len() == 0 {
        0
    } else {
        (digits_value(s.drop_last()) * 10 + digit_value(s.last())) as nat
    }
}

/// Whether `s` starts with a plus or minus sign.
pub open spec fn has_sign(s: Seq<char>) -> bool {
    s.len() > 0 && (s[0] == '+' || s[0] == '-')
}

/// `s` without its sign, if it has one.
pub open spec fn unsigned_part(s: Seq<char>) -> Seq<char> {
    if has_sign(s) {
        s.skip(1)
    } else {
        s
    }
}

/// The integer that `s` denotes: an optional sign and then one or more
/// digits. This is the grammar of `str::parse` for the integer types.
pub open spec fn int_literal(s: Seq<char>) -> Option<int> {
    let body = unsigned_part(s);
    if body.len() > 0 && all_digits(body) {
        if s[0] == '-' {
            Some(-(digits_value(body) as int))
        } else {
            Some(digits_value(body) as int)
        }
    } else {
        None
    }
}

/// The `i64` that `s` denotes, where it denotes an integer in range.
pub open spec fn i64_literal(s: Seq<char>) -> Option<i64> {
    match int_literal(s) {
        Some(n) => if i64::MIN <= n <= i64::MAX {
            Some(n as i64)
        } else {
            None
        },
        None => None,
    }
}

/// A longer run of digits spells a number that is at least as large.
pub proof fn lemma_digits_value_monotonic(s: Seq<char>, k: int)
    requires
        0 <= k <= s.len(),
        all_digits(s),
    ensures
        digits_value(s.take(k)) <= digits_value(s),
    decreases s.len(),
{
    if k < s.len() {
        let t = s.drop_last();
        assert(t.take(k) == s.take(k));
        lemma_digits_value_monotonic(t, k);
        assert(is_digit(s.last()));
    } else {
        assert(s.take(k) == s);
    }
}

/// Appends `n` in decimal to `dst`.
pub fn push_decimal(dst: &mut Vec<char>, n: u128)
    ensures
        final(dst)@ == old(dst)@ + decimal(n as nat),
    decreases n,
{
    if n >= 10 {
        push_decimal(dst, n / 10);
    }
    let d: u8 = (n % 10) as u8;
    dst.push((48 + d) as char);
    assert(old(dst)@ + decimal(n as nat) == dst@);
}

/// Appends `n` in decimal to `dst`, with a minus sign where it is negative.
pub fn push_signed_decimal(dst: &mut Vec<char>, n: i128)
    ensures
        final(dst)@ == old(dst)@ + signed_decimal(n as int),
{
    if n < 0 {
        dst.push('-');
        let m: u128 = if n == i128::MIN {
            0x8000_0000_0000_0000_0000_0000_0000_0000u128
        } else {
            (-n) as u128
        };
        push_decimal(dst, m);
        assert(old(dst)@ + signed_decimal(n as int) == dst@);
    } else {
        push_decimal(dst, n as u128);
    }
}

/// The `i64` that `v` denotes, if it denotes one.
pub fn parse_i64(v: &Vec<char>) -> (r: Option<i64>)
    ensures
        r == i64_literal(v@),
{
    let n = v.len();
    if n == 0 {
        return None;
    }
    let negative = v[0] == '-';
    let start: usize = if v[0] == '+' || v[0] == '-' {
        1
    } else {
        0
    };
    if start == n {
        return None;
    }
    let ghost body = unsigned_part(v@);
    assert(body == v@.subrange(start as int, n as int));
    let limit: u64 = 0x8000_0000_0000_0000u64;
    let mut acc: u64 = 0;
    let mut i: usize = start;
    while i < n
        invariant
            start <= i <= n == v.len(),
            start < n,
            body == unsigned_part(v@),
            body == v@.subrange(start as int, n as int),
            all_digits(body.take(i - start)),
            acc == digits_value(body.take(i - start)),
            acc <= limit,
            limit == 0x8000_0000_0000_0000u64,
        decreases n - i,
    {
        let c = v[i];
        let code: u32 = c as u32;
        if code < 48 || code > 57 {
            assert(body[i - start] == c);
            assert(!is_digit(body[i - start]));
            return None;
        }
        let d: u64 = (code - 48) as u64;
        let ghost next = body.take(i - start + 1);
        assert(next.drop_last() == body.take(i - start));
        assert(next.last() == c);
        assert(all_digits(next)) by {
            assert forall|j: int| 0 <= j < next.len() implies is_digit(#[trigger] next[j]) by {
                if j < next.len() - 1 {
                    assert(next[j] == body.take(i - start)[j]);
                }
            }
        }
        if acc > (limit - d) / 10 {
            proof {
                assert(digits_value(next) > limit);
                if all_digits(body) {
                    lemma_digits_value_monotonic(body, i - start + 1);
                }
            }
            return None;
        }
        acc = acc * 10 + d;
        i += 1;
    }
    assert(body.take(n - start) == body);
    if negative {
        if acc == limit {
            Some(i64::MIN)
        } else {
            Some(-(acc as i64))
        }
    } else {
        if acc == limit {
            None
        } else {
            Some(acc as i64)
        }
    }
}

/// The number of digits at the start of `s`.
pub open spec fn leading_digits(s: Seq<char>) -> nat
    decreases s.len(),
{
    if s.len() > 0 && is_digit(s[0]) {
        1 + leading_digits(s.skip(1))
    } else {
        0
    }
}

/// A prefix of digits that stops at another character, or at the end, is
/// the leading run of digits.
pub proof fn lemma_leading_digits_is(s: Seq<char>, n: int)
    requires
        0 <= n <= s.len(),
        forall|i: int| 0 <= i < n ==> is_digit(#[trigger] s[i]),
        n < s.len() ==> !is_digit(s[n]),
    ensures
        leading_digits(s) == n,
    decreases s.len(),
{
    if n > 0 {
        let t = s.skip(1);
        assert forall|i: int| 0 <= i < n - 1 implies is_digit(#[trigger] t[i]) by {
            assert(t[i] == s[i + 1]);
        }
        if n - 1 < t.len() {
            assert(t[n - 1] == s[n]);
        }
        lemma_leading_digits_is(t, n - 1);
    }
}

/// `c` with an ASCII capital letter turned into its small letter.
pub open spec fn ascii_lower(c: char) -> char {
    if 65 <= c as u32 <= 90 {
        ((c as u32 + 32) as u8) as char
    } else {
        c
    }
}

/// Whether `s` is `word` up to the case of ASCII letters.
pub open spec fn is_word(s: Seq<char>, word: Seq<char>) -> bool {
    s.len() == word.len() && forall|i: int|
        0 <= i < s.len() ==> ascii_lower(#[trigger] s[i]) == word[i]
}

/// Whether `s` names an infinity or a not-a-number.
pub open spec fn is_special_float(s: Seq<char>) -> bool {
    ||| is_word(s, seq!['i', 'n', 'f'])
    ||| is_word(s, seq!['i', 'n', 'f', 'i', 'n', 'i', 't', 'y'])
    ||| is_word(s, seq!['n', 'a', 'n'])
}

/// The length of the mantissa at the start of `s`: digits with at most one
/// point among them, and at least one digit.
pub open spec fn mantissa_len(s: Seq<char>) -> Option<nat> {
    let a = leading_digits(s);
    if a < s.len() && s[a as int] == '.' {
        let b = leading_digits(s.skip(a as int + 1));
        if a + b >= 1 {
            Some(a + 1 + b)
        } else {
            None
        }
    } else if a >= 1 {
        Some(a)
    } else {
        None
    }
}

/// Whether `e` is an exponent: the letter e, an optional sign, and one or
/// more digits.
pub open spec fn is_exponent(e: Seq<char>) -> bool {
    e.len() >= 1 && (e[0] == 'e' || e[0] == 'E') && {
        let d = unsigned_part(e.skip(1));
        d.len() >= 1 && all_digits(d)
    }
}

/// Whether `s` is a mantissa, alone or followed by an exponent.
pub open spec fn is_decimal_number(s: Seq<char>) -> bool {
    match mantissa_len(s) {
        Some(m) => m == s.len() || is_exponent(s.skip(m as int)),
        None => false,
    }
}

/// Whether `s` is a floating-point literal: an optional sign, then a decimal
/// number, an infinity or a not-a-number. This is the grammar of `str::parse`
/// for the floating-point types.
pub open spec fn float_literal(s: Seq<char>) -> bool {
    let body = unsigned_part(s);
    is_special_float(body) || is_decimal_number(body)
}

/// Whether `v[from..]` is `word` up to the case of ASCII letters.
fn tail_is_word(v: &Vec<char>, from: usize, word: &Vec<char>) -> (r: bool)
    requires
        from <= v.len(),
    ensures
        r == is_word(v@.subrange(from as int, v.len() as int), word@),
{
    let ghost s = v@.subrange(from as int, v.len() as int);
    if v.len() - from != word.len() {
        return false;
    }
    let mut i: usize = 0;
    while i < word.len()
        invariant
            i <= word.len(),
            from <= v.len(),
            v.len() - from == word.len(),
            s == v@.subrange(from as int, v.len() as int),
            forall|j: int| 0 <= j < i ==> ascii_lower(#[trigger] s[j]) == word@[j],
        decreases word.len() - i,
    {
        let c = v[from + i];
        let code: u32 = c as u32;
        let low: char = if 65 <= code && code <= 90 {
            ((code + 32) as u8) as char
        } else {
            c
        };
        assert(s[i as int] == c);
        if low != word[i] {
            return false;
        }
        i += 1;
    }
    true
}

/// The index after the digits that start at `from`.
fn skip_digits(v: &Vec<char>, from: usize) -> (r: usize)
    requires
        from <= v.len(),
    ensures
        from <= r <= v.len(),
        r - from == leading_digits(v@.subrange(from as int, v.len() as int)),
        all_digits(v@.subrange(from as int, r as int)),
{
    let ghost s = v@.subrange(from as int, v.len() as int);
    let mut i: usize = from;
    while i < v.len() && 48 <= v[i] as u32 && v[i] as u32 <= 57
        invariant
            from <= i <= v.len(),
            s == v@.subrange(from as int, v.len() as int),
            forall|j: int| 0 <= j < i - from ==> is_digit(#[trigger] s[j]),
        decreases v.len() - i,
    {
        i += 1;
    }
    proof {
        lemma_leading_digits_is(s, i - from);
        assert forall|j: int| 0 <= j < i - from implies is_digit(
            #[trigger] v@.subrange(from as int, i as int)[j],
        ) by {
            assert(v@.subrange(from as int, i as int)[j] == s[j]);
        }
    }
    i
}

/// Whether `v[from..]` names an infinity or a not-a-number.
fn is_special_at(v: &Vec<char>, from: usize) -> (r: bool)
    requires
        from <= v.len(),
    ensures
        r == is_special_float(v@.subrange(from as int, v.len() as int)),
{
    let inf = vec!['i', 'n', 'f'];
    let infinity = vec!['i', 'n', 'f', 'i', 'n', 'i', 't', 'y'];
    let nan = vec!['n', 'a', 'n'];
    assert(inf@ == seq!['i', 'n', 'f']);
    assert(infinity@ == seq!['i', 'n', 'f', 'i', 'n', 'i', 't', 'y']);
    assert(nan@ == seq!['n', 'a', 'n']);
    tail_is_word(v, from, &inf) || tail_is_word(v, from, &infinity) || tail_is_word(v, from, &nan)
}

/// The index after the mantissa that starts at `from`, if one starts there.
fn scan_mantissa(v: &Vec<char>, from: usize) -> (r: Option<usize>)
    requires
        from <= v.len(),
    ensures
        match r {
            Some(m) => from <= m <= v.len() && mantissa_len(
                v@.subrange(from as int, v.len() as int),
            ) == Some((m - from) as nat),
            None => mantissa_len(v@.subrange(from as int, v.len() as int)) is None,
        },
{
    let n = v.len();
    let ghost body = v@.subrange(from as int, n as int);
    let a = skip_digits(v, from);
    if a < n {
        assert(body[a - from] == v@[a as int]);
    }
    if a < n && v[a] == '.' {
        let b = skip_digits(v, a + 1);
        assert(body.skip(a - from + 1) == v@.subrange(a + 1, n as int));
        if (a - from) + (b - (a + 1)) == 0 {
            None
        } else {
            Some(b)
        }
    } else if a == from {
        None
    } else {
        Some(a)
    }
}

/// Whether `v[from..]` is an exponent.
fn is_exponent_at(v: &Vec<char>, from: usize) -> (r: bool)
    requires
        from <= v.len(),
    ensures
        r == is_exponent(v@.subrange(from as int, v.len() as int)),
{
    let n = v.len();
    let ghost e = v@.subrange(from as int, n as int);
    if from == n {
        return false;
    }
    assert(e[0] == v@[from as int]);
    if v[from] != 'e' && v[from] != 'E' {
        return false;
    }
    let mut k: usize = from + 1;
    assert(e.skip(1) == v@.subrange(from + 1, n as int));
    if k < n {
        assert(e.skip(1)[0] == v@[k as int]);
    }
    if k < n && (v[k] == '+' || v[k] == '-') {
        k += 1;
    }
    let ghost d = unsigned_part(e.skip(1));
    assert(d == v@.subrange(k as int, n as int));
    if k == n {
        return false;
    }
    let z = skip_digits(v, k);
    if z == n {
        true
    } else {
        proof {
            lemma_leading_digits_stop(d);
        }
        false
    }
}

/// Whether `v` is a floating-point literal.
pub fn is_float_literal(v: &Vec<char>) -> (r: bool)
    ensures
        r == float_literal(v@),
{
    let n = v.len();
    let start: usize = if n > 0 && (v[0] == '+' || v[0] == '-') {
        1
    } else {
        0
    };
    let ghost body = unsigned_part(v@);
    assert(body == v@.subrange(start as int, n as int));
    if is_special_at(v, start) {
        return true;
    }
    match scan_mantissa(v, start) {
        None => false,
        Some(m) => {
            assert(body.skip(m - start) == v@.subrange(m as int, n as int));
            m == n || is_exponent_at(v, m)
        },
    }
}

/// The character after the leading digits, if there is one, is no digit.
pub proof fn lemma_leading_digits_stop(s: Seq<char>)
    ensures
        leading_digits(s) <= s.len(),
        leading_digits(s) < s.len() ==> !is_digit(s[leading_digits(s) as int]),
    decreases s.len(),
{
    if s.len() > 0 && is_digit(s[0]) {
        let t = s.skip(1);
        lemma_leading_digits_stop(t);
        if leading_digits(s) < s.len() {
            assert(s[leading_digits(s) as int] == t[leading_digits(t) as int]);
        }
    }
}

/// What is written out as a number is read back as that number: the text
/// is not empty, it is made of digits, and its digits spell the number.
pub proof fn lemma_decimal_round_trip(n: nat)
    ensures
        decimal(n).len() >= 1,
        all_digits(decimal(n)),
        digits_value(decimal(n)) == n,
    decreases n,
{
    let d = digit_char((n % 10) as int);
    assert(is_digit(d) && digit_value(d) == n % 10);
    if n < 10 {
        let s = decimal(n);
        assert(s =~= seq![d]);
        assert(s.drop_last() =~= Seq::<char>::empty());
        assert(digits_value(s.drop_last()) == 0);
    } else {
        lemma_decimal_round_trip(n / 10);
        let s = decimal(n);
        assert(s.drop_last() =~= decimal(n / 10));
        assert(s.last() == d);
        assert forall|i: int| 0 <= i < s.len() implies is_digit(#[trigger] s[i]) by {
            if i < s.len() - 1 {
                assert(s[i] == decimal(n / 10)[i]);
            }
        }
    }
}

/// An `i64` that is written out in decimal is read back as itself.
pub proof fn lemma_i64_round_trip(n: i64)
    ensures
        i64_literal(signed_decimal(n as int)) == Some(n),
        signed_decimal(n as int).len() >= 1,
        forall|i: int|
            0 <= i < signed_decimal(n as int).len() ==> is_digit(
                #[trigger] signed_decimal(n as int)[i],
            ) || signed_decimal(n as int)[i] == '-',
{
    let s = signed_decimal(n as int);
    if n < 0 {
        let m = (-(n as int)) as nat;
        lemma_decimal_round_trip(m);
        assert(s[0] == '-');
        assert(unsigned_part(s) =~= decimal(m));
        assert forall|i: int| 0 <= i < s.len() implies is_digit(#[trigger] s[i]) || s[i]
            == '-' by {
            if i > 0 {
                assert(s[i] == decimal(m)[i - 1]);
            }
        }
    } else {
        lemma_decimal_round_trip(n as nat);
        assert(is_digit(s[0]));
        assert(!has_sign(s));
    }
}

} // verus!
