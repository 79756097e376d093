use vstd::prelude::*;
use vstd::string::StringExecFns;

verus! {

/// Equality of string slices (`str::eq` of the standard library): two slices
/// are equal exactly when they hold the same characters.
pub assume_specification[ <str as PartialEq>::eq ](a: &str, b: &str) -> (same: bool)
    ensures
        same == (a@ == b@),
;

/// Whether two slices hold the same characters.
pub fn same_text(a: &str, b: &str) -> (same: bool)
    ensures
        same == (a@ == b@),
{
    *a == *b
}

/// The characters of a slice, one by one.
pub fn chars_of(s: &str) -> (chars: Vec<char>)
    ensures
        chars@ == s@,
{
    let n: usize = s.unicode_len();
    let mut chars: Vec<char> = Vec::new();
    let mut i: usize = 0;
    while i < n
        invariant
            i <= n,
            n == s@.len(),
            chars@ == s@.subrange(0, i as int),
        decreases n - i,
    {
        chars.push(s.get_char(i));
        i = i + 1;
        assert(chars@ == s@.subrange(0, i as int));
    }
    assert(s@.subrange(0, n as int) == s@);
    chars
}

/// `c` is one of the ten decimal digits.
pub open spec fn is_digit(c: char) -> bool {
    '0' <= c <= '9'
}

/// The value of a decimal digit.
pub open spec fn digit_value(c: char) -> int {
    c as int - '0' as int
}

/// Every character of `s` is a decimal digit.
pub open spec fn all_digits(s: Seq<char>) -> bool {
    forall|i: int| 0 <= i < s.len() ==> is_digit(#[trigger] s[i])
}

/// The number that the digits of `s` write in base ten; zero for no digits.
pub open spec fn digits_value(s: Seq<char>) -> int
    decreases s.len(),
{
    if s.len() == 0 {
        0
    } else {
        digits_value(s.drop_last()) * 10 + digit_value(s.last())
    }
}

/// Ten to the power `n`.
pub open spec fn pow10(n: nat) -> int
    decreases n,
{
    if n == 0 {
        1
    } else {
        10 * pow10((n - 1) as nat)
    }
}

/// The first place of `c` in `s`, or the length of `s` where it has none.
pub open spec fn first_index_of(s: Seq<char>, c: char) -> int
    decreases s.len(),
{
    if s.len() == 0 {
        0
    } else if s[0] == c {
        0
    } else {
        1 + first_index_of(s.drop_first(), c)
    }
}

/// The digits after the point, read as a whole number of `places` places:
/// digits beyond `places` are dropped, missing ones count as zeros.
pub open spec fn fraction_value(frac: Seq<char>, places: nat) -> int {
    if frac.len() >= places {
        digits_value(frac.take(places as int))
    } else {
        digits_value(frac) * pow10((places - frac.len()) as nat)
    }
}

/// The sign in front of a number and the text behind it: `-` and `+` are
/// signs, anything else belongs to the number.
pub open spec fn split_sign(s: Seq<char>) -> (bool, Seq<char>) {
    if s.len() > 0 && s[0] == '-' {
        (true, s.drop_first())
    } else if s.len() > 0 && s[0] == '+' {
        (false, s.drop_first())
    } else {
        (false, s)
    }
}

/// The digits before the point of a number with an optional sign.
pub open spec fn decimal_whole(s: Seq<char>) -> Seq<char> {
    let body = split_sign(s).1;
    body.take(first_index_of(body, '.'))
}

/// The digits after the point; none where the number has no point.
pub open spec fn decimal_frac(s: Seq<char>) -> Seq<char> {
    let body = split_sign(s).1;
    let dot = first_index_of(body, '.');
    if dot < body.len() {
        body.skip(dot + 1)
    } else {
        Seq::<char>::empty()
    }
}

/// The text is a plain decimal number: an optional sign, digits, and
/// optionally a point and more digits, with a digit on at least one side of
/// the point. No exponent, no blanks.
pub open spec fn is_decimal(s: Seq<char>) -> bool {
    &&& all_digits(decimal_whole(s))
    &&& all_digits(decimal_frac(s))
    &&& decimal_whole(s).len() + decimal_frac(s).len() > 0
}

/// The value of a sign and two runs of digits in units of ten to the minus
/// `places`, rounded toward zero.
pub open spec fn parts_value(negative: bool, whole: Seq<char>, frac: Seq<char>, places: nat) -> int {
    let magnitude = digits_value(whole) * pow10(places) + fraction_value(frac, places);
    if negative {
        -magnitude
    } else {
        magnitude
    }
}

/// The value of a plain decimal number in units of ten to the minus
/// `places`, rounded toward zero.
pub open spec fn decimal_value(s: Seq<char>, places: nat) -> int
    recommends
        is_decimal(s),
{
    parts_value(split_sign(s).0, decimal_whole(s), decimal_frac(s), places)
}

/// What reading `s` as a decimal number of `places` places gives: its value,
/// where the text is a plain decimal number whose value fits in 64 bits.
pub open spec fn parsed_decimal(s: Seq<char>, places: nat) -> Option<i64> {
    if is_decimal(s) && -(i64::MAX as int) <= decimal_value(s, places) <= i64::MAX as int {
        Some(decimal_value(s, places) as i64)
    } else {
        None
    }
}

/// What reading `s` as an unsigned whole number gives: an optional `+`,
/// digits only, at least one, and a value that fits in 64 bits.
pub open spec fn parsed_u64(s: Seq<char>) -> Option<u64> {
    let body = if s.len() > 0 && s[0] == '+' {
        s.drop_first()
    } else {
        s
    };
    if body.len() > 0 && all_digits(body) && digits_value(body) <= u64::MAX as int {
        Some(digits_value(body) as u64)
    } else {
        None
    }
}

/// A run of digits writes a number from zero up to, and not reaching, ten
/// to the power of its length.
pub proof fn lemma_digits_value_bounds(s: Seq<char>)
    requires
        all_digits(s),
    ensures
        0 <= digits_value(s) < pow10(s.len()),
    decreases s.len(),
{
    if s.len() > 0 {
        lemma_digits_value_bounds(s.drop_last());
        assert(is_digit(s.last()));
    }
}

/// Ten to a higher power is no smaller.
pub proof fn lemma_pow10_monotone(a: nat, b: nat)
    requires
        a <= b,
    ensures
        pow10(a) <= pow10(b),
    decreases b,
{
    lemma_pow10_positive(a);
    if a < b {
        lemma_pow10_monotone(a, (b - 1) as nat);
    }
}

/// Ten to a sum of powers is the product of the two powers.
pub proof fn lemma_pow10_sum(a: nat, b: nat)
    ensures
        pow10(a + b) == pow10(a) * pow10(b),
    decreases a,
{
    if a > 0 {
        lemma_pow10_sum((a - 1) as nat, b);
        assert(pow10(a + b) == 10 * pow10((a + b - 1) as nat));
        assert(10 * (pow10((a - 1) as nat) * pow10(b)) == (10 * pow10((a - 1) as nat)) * pow10(b))
            by (nonlinear_arith);
    } else {
        assert(1 * pow10(b) == pow10(b));
    }
}

/// Ten to the eighteenth, the largest power used here.
pub proof fn lemma_pow10_18()
    ensures
        pow10(18) == 1_000_000_000_000_000_000,
{
    reveal_with_fuel(pow10, 20);
}

/// Appending a digit multiplies by ten and adds the digit.
pub proof fn lemma_digits_value_push(s: Seq<char>, c: char)
    ensures
        digits_value(s.push(c)) == digits_value(s) * 10 + digit_value(c),
{
    assert(s.push(c).drop_last() == s);
}

/// Every power of ten is at least one.
pub proof fn lemma_pow10_positive(n: nat)
    ensures
        pow10(n) >= 1,
    decreases n,
{
    if n > 0 {
        lemma_pow10_positive((n - 1) as nat);
    }
}

/// The first place of a character is a place of it, and none lies before.
pub proof fn lemma_first_index_of(s: Seq<char>, c: char)
    ensures
        0 <= first_index_of(s, c) <= s.len(),
        first_index_of(s, c) < s.len() ==> s[first_index_of(s, c)] == c,
        forall|i: int| 0 <= i < first_index_of(s, c) ==> s[i] != c,
    decreases s.len(),
{
    if s.len() > 0 && s[0] != c {
        lemma_first_index_of(s.drop_first(), c);
        assert forall|i: int| 0 <= i < first_index_of(s, c) implies s[i] != c by {
            if i > 0 {
                assert(s[i] == s.drop_first()[i - 1]);
            }
        }
    }
}

/// A place that holds the character and has none of it before is its first
/// place.
pub proof fn lemma_first_index_is(s: Seq<char>, c: char, at: int)
    requires
        0 <= at <= s.len(),
        at < s.len() ==> s[at] == c,
        forall|i: int| 0 <= i < at ==> s[i] != c,
    ensures
        first_index_of(s, c) == at,
{
    lemma_first_index_of(s, c);
    let f = first_index_of(s, c);
    if f < at {
        assert(s[f] != c);
    }
}

/// Reads a run of digits from `from` on. Gives the place where the run
/// ends and its value, or no value where it passes `limit`.
fn read_digits(chars: &Vec<char>, from: usize, limit: u128) -> (r: (usize, Option<u128>))
    requires
        from <= chars.len(),
        limit <= u64::MAX,
    ensures
        from <= r.0 <= chars.len(),
        all_digits(chars@.subrange(from as int, r.0 as int)),
        r.0 < chars.len() ==> !is_digit(chars@[r.0 as int]),
        r.1 is Some == (digits_value(chars@.subrange(from as int, r.0 as int)) <= limit),
        r.1 is Some ==> r.1->0 == digits_value(chars@.subrange(from as int, r.0 as int)),
{
    let mut i: usize = from;
    let mut value: u128 = 0;
    let mut fits: bool = true;
    assert(chars@.subrange(from as int, from as int) == Seq::<char>::empty());
    while i < chars.len() && is_digit_char(chars[i])
        invariant
            from <= i <= chars.len(),
            limit <= u64::MAX,
            all_digits(chars@.subrange(from as int, i as int)),
            fits == (digits_value(chars@.subrange(from as int, i as int)) <= limit),
            fits ==> value == digits_value(chars@.subrange(from as int, i as int)),
        decreases chars.len() - i,
    {
        let d: u128 = digit_of(chars[i]) as u128;
        proof {
            let before = chars@.subrange(from as int, i as int);
            let after = chars@.subrange(from as int, i + 1);
            assert(after == before.push(chars@[i as int]));
            lemma_digits_value_push(before, chars@[i as int]);
            lemma_digits_value_bounds(before);
        }
        if fits {
            let next: u128 = value * 10 + d;
            if next > limit {
                fits = false;
            } else {
                value = next;
            }
        }
        i = i + 1;
    }
    if fits {
        (i, Some(value))
    } else {
        (i, None)
    }
}

/// Whether the character is a decimal digit.
pub fn is_digit_char(c: char) -> (r: bool)
    ensures
        r == is_digit(c),
{
    '0' <= c && c <= '9'
}

/// The value of a decimal digit.
pub fn digit_of(c: char) -> (d: u8)
    requires
        is_digit(c),
    ensures
        d == digit_value(c),
        d <= 9,
{
    ((c as u32) - ('0' as u32)) as u8
}

/// Ten to the power `n`, for the powers that fit comfortably in 64 bits.
pub fn power_of_ten(n: u32) -> (p: u64)
    requires
        n <= 18,
    ensures
        p == pow10(n as nat),
        1 <= p <= 1_000_000_000_000_000_000,
{
    let mut p: u64 = 1;
    let mut i: u32 = 0;
    proof {
        lemma_pow10_18();
        lemma_pow10_monotone(0, 18);
    }
    while i < n
        invariant
            i <= n <= 18,
            p == pow10(i as nat),
            1 <= p,
            pow10(i as nat) <= pow10(18),
            pow10(18) == 1_000_000_000_000_000_000,
        decreases n - i,
    {
        proof {
            lemma_pow10_18();
            lemma_pow10_monotone((i + 1) as nat, 18);
        }
        p = p * 10;
        i = i + 1;
    }
    proof {
        lemma_pow10_18();
        lemma_pow10_monotone(n as nat, 18);
    }
    p
}

/// The value of the `count` digits that start at `from`.
fn digits_at(chars: &Vec<char>, from: usize, count: usize) -> (value: u64)
    requires
        from + count <= chars.len(),
        count <= 18,
        all_digits(chars@.subrange(from as int, from + count)),
    ensures
        value == digits_value(chars@.subrange(from as int, from + count)),
        value < pow10(count as nat),
{
    let mut value: u64 = 0;
    let mut i: usize = 0;
    assert(chars@.subrange(from as int, from as int) == Seq::<char>::empty());
    while i < count
        invariant
            i <= count <= 18,
            from + count <= chars.len(),
            all_digits(chars@.subrange(from as int, from + count)),
            value == digits_value(chars@.subrange(from as int, from + i)),
            value < pow10(i as nat),
        decreases count - i,
    {
        proof {
            let all = chars@.subrange(from as int, from + count);
            let before = chars@.subrange(from as int, from + i);
            let after = chars@.subrange(from as int, from + i + 1);
            assert(all[i as int] == chars@[from + i]);
            assert(after == before.push(chars@[from + i]));
            lemma_digits_value_push(before, chars@[from + i]);
            lemma_pow10_18();
            lemma_pow10_monotone((i + 1) as nat, 18);
        }
        let d: u64 = digit_of(chars[from + i]) as u64;
        value = value * 10 + d;
        i = i + 1;
    }
    value
}

/// Where the parts of a plain decimal number lie in `chars`: the start of
/// the digits before the point, their end, and the start of the digits
/// after the point, which run to the end. Nothing where the text is no plain
/// decimal number.
fn scan_decimal(chars: &Vec<char>) -> (r: Option<(usize, usize, usize)>)
    ensures
        r is Some == is_decimal(chars@),
        r is Some ==> ({
            let (start, whole_end, frac_start) = r->0;
            &&& start <= whole_end <= frac_start <= chars.len()
            &&& whole_end < chars.len() ==> !is_digit(chars@[whole_end as int])
            &&& start == chars.len() - split_sign(chars@).1.len()
            &&& decimal_whole(chars@) == chars@.subrange(start as int, whole_end as int)
            &&& decimal_frac(chars@) == chars@.subrange(frac_start as int, chars.len() as int)
        }),
{
    let n: usize = chars.len();
    let start: usize = if n > 0 && (chars[0] == '-' || chars[0] == '+') {
        1
    } else {
        0
    };
    let ghost body = split_sign(chars@).1;
    let ghost dot = first_index_of(body, '.');
    assert(body == chars@.subrange(start as int, n as int));
    let (whole_end, _whole_fits) = read_digits(chars, start, 0);
    proof {
        lemma_first_index_of(body, '.');
        if whole_end < n && chars[whole_end as int] != '.' {
            assert(body[whole_end - start] == chars@[whole_end as int]);
            if dot > whole_end - start {
                assert(body.take(dot)[whole_end - start] == body[whole_end - start]);
            } else {
                assert(dot < whole_end - start);
                assert(chars@.subrange(start as int, whole_end as int)[dot] == body[dot]);
            }
        } else {
            assert forall|i: int| 0 <= i < whole_end - start implies body[i] != '.' by {
                assert(chars@.subrange(start as int, whole_end as int)[i] == body[i]);
            }
            lemma_first_index_is(body, '.', whole_end - start);
            assert(body.take(dot) == chars@.subrange(start as int, whole_end as int));
        }
    }
    if whole_end < n && chars[whole_end] != '.' {
        return None;
    }
    let frac_start: usize = if whole_end < n {
        whole_end + 1
    } else {
        n
    };
    let ghost frac = decimal_frac(chars@);
    assert(frac == chars@.subrange(frac_start as int, n as int));
    let (frac_end, _frac_fits) = read_digits(chars, frac_start, 0);
    proof {
        if frac_end < n {
            assert(frac[frac_end - frac_start] == chars@[frac_end as int]);
        } else {
            assert(frac == chars@.subrange(frac_start as int, frac_end as int));
        }
    }
    if frac_end < n {
        return None;
    }
    if whole_end - start == 0 && n - frac_start == 0 {
        return None;
    }
    Some((start, whole_end, frac_start))
}

/// The digits after the point as a whole number of `places` places.
fn fraction_at(chars: &Vec<char>, frac_start: usize, places: u32) -> (value: u64)
    requires
        places <= 18,
        frac_start <= chars.len(),
        all_digits(chars@.subrange(frac_start as int, chars.len() as int)),
    ensures
        value == fraction_value(
            chars@.subrange(frac_start as int, chars.len() as int),
            places as nat,
        ),
        value < pow10(places as nat),
{
    let frac_len: usize = chars.len() - frac_start;
    let kept: usize = if frac_len >= places as usize {
        places as usize
    } else {
        frac_len
    };
    let ghost frac = chars@.subrange(frac_start as int, chars.len() as int);
    proof {
        assert(chars@.subrange(frac_start as int, frac_start + kept) == frac.take(kept as int));
        assert forall|i: int| 0 <= i < kept implies is_digit(
            #[trigger] frac.take(kept as int)[i],
        ) by {
            assert(frac.take(kept as int)[i] == frac[i]);
        }
        if frac_len < places {
            assert(frac.take(kept as int) == frac);
        }
    }
    let kept_value: u64 = digits_at(chars, frac_start, kept);
    let pad: u64 = power_of_ten(places - kept as u32);
    proof {
        lemma_pow10_sum(kept as nat, (places - kept) as nat);
        assert(kept_value * pad < pow10(kept as nat) * pad) by (nonlinear_arith)
            requires
                0 <= kept_value < pow10(kept as nat),
                0 < pad,
        ;
        lemma_pow10_18();
        lemma_pow10_monotone(places as nat, 18);
    }
    kept_value * pad
}

/// Some digit of the run is not zero.
pub open spec fn has_nonzero(s: Seq<char>) -> bool {
    exists|i: int| 0 <= i < s.len() && #[trigger] s[i] != '0'
}

/// The text writes a plain decimal number above zero, however small or
/// large: no minus sign, and a digit other than zero on either side of the
/// point.
pub open spec fn is_positive_decimal(s: Seq<char>) -> bool {
    is_decimal(s) && !split_sign(s).0 && (has_nonzero(decimal_whole(s)) || has_nonzero(
        decimal_frac(s),
    ))
}

/// The text writes a plain decimal number equal to zero: digits on at
/// least one side of the point, and all of them zero. A sign changes
/// nothing.
pub open spec fn is_zero_decimal(s: Seq<char>) -> bool {
    is_decimal(s) && !has_nonzero(decimal_whole(s)) && !has_nonzero(decimal_frac(s))
}

/// Whether some character from `from` up to `to` is not the digit zero.
fn any_nonzero(chars: &Vec<char>, from: usize, to: usize) -> (r: bool)
    requires
        from <= to <= chars.len(),
    ensures
        r == has_nonzero(chars@.subrange(from as int, to as int)),
{
    let mut i: usize = from;
    while i < to
        invariant
            from <= i <= to <= chars.len(),
            forall|j: int| from <= j < i ==> chars@[j] == '0',
        decreases to - i,
    {
        if chars[i] != '0' {
            proof {
                assert(chars@.subrange(from as int, to as int)[i - from] == chars@[i as int]);
            }
            return true;
        }
        i = i + 1;
    }
    proof {
        assert forall|j: int| 0 <= j < to - from implies chars@.subrange(
            from as int,
            to as int,
        )[j] == '0' by {
            assert(chars@[from + j] == '0');
        }
    }
    false
}

/// Whether a text writes a plain decimal number above zero.
pub fn is_positive(s: &str) -> (r: bool)
    ensures
        r == is_positive_decimal(s@),
{
    let chars: Vec<char> = chars_of(s);
    if chars.len() > 0 && chars[0] == '-' {
        return false;
    }
    match scan_decimal(&chars) {
        None => false,
        Some((start, whole_end, frac_start)) => any_nonzero(&chars, start, whole_end)
            || any_nonzero(&chars, frac_start, chars.len()),
    }
}

/// Whether a text writes a plain decimal number equal to zero.
pub fn is_zero(s: &str) -> (r: bool)
    ensures
        r == is_zero_decimal(s@),
{
    let chars: Vec<char> = chars_of(s);
    match scan_decimal(&chars) {
        None => false,
        Some((start, whole_end, frac_start)) => !any_nonzero(&chars, start, whole_end)
            && !any_nonzero(&chars, frac_start, chars.len()),
    }
}

/// Reads a plain decimal number as a whole number of units of ten to the
/// minus `places`, rounding toward zero: with six places, `"0.51"` gives
/// 510000.
pub fn parse_decimal(s: &str, places: u32) -> (r: Option<i64>)
    requires
        places <= 18,
    ensures
        r == parsed_decimal(s@, places as nat),
{
    let chars: Vec<char> = chars_of(s);
    let negative: bool = chars.len() > 0 && chars[0] == '-';
    match scan_decimal(&chars) {
        None => None,
        Some((start, whole_end, frac_start)) => {
            let (end, whole_value) = read_digits(&chars, start, i64::MAX as u128);
            let ghost whole = decimal_whole(s@);
            let ghost frac = decimal_frac(s@);
            proof {
                if end > whole_end {
                    assert(chars@.subrange(start as int, end as int)[whole_end - start]
                        == chars@[whole_end as int]);
                }
                if end < whole_end {
                    assert(whole[end - start] == chars@[end as int]);
                }
                assert(end == whole_end);
                lemma_digits_value_bounds(whole);
                lemma_pow10_positive(places as nat);
            }
            let frac_value: u64 = fraction_at(&chars, frac_start, places);
            let scale: u64 = power_of_ten(places);
            match whole_value {
                None => {
                    proof {
                        let w = digits_value(whole);
                        assert(w * pow10(places as nat) >= w) by (nonlinear_arith)
                            requires
                                w >= 0,
                                pow10(places as nat) >= 1,
                        ;
                    }
                    None
                },
                Some(w) => {
                    assert(w * scale <= 0x7fff_ffff_ffff_ffff * 1_000_000_000_000_000_000)
                        by (nonlinear_arith)
                        requires
                            0 <= w <= 0x7fff_ffff_ffff_ffff,
                            0 <= scale <= 1_000_000_000_000_000_000,
                    ;
                    let magnitude: u128 = w * scale as u128 + frac_value as u128;
                    if magnitude > i64::MAX as u128 {
                        None
                    } else if negative {
                        Some(-(magnitude as i64))
                    } else {
                        Some(magnitude as i64)
                    }
                },
            }
        },
    }
}

/// Reads an unsigned whole number.
pub fn parse_u64(s: &str) -> (r: Option<u64>)
    ensures
        r == parsed_u64(s@),
{
    let chars: Vec<char> = chars_of(s);
    let start: usize = if chars.len() > 0 && chars[0] == '+' {
        1
    } else {
        0
    };
    let (end, value) = read_digits(&chars, start, u64::MAX as u128);
    proof {
        let body = if s@.len() > 0 && s@[0] == '+' {
            s@.drop_first()
        } else {
            s@
        };
        assert(body == chars@.subrange(start as int, chars.len() as int));
        if end < chars.len() {
            assert(body[end - start] == chars@[end as int]);
            assert(!all_digits(body));
        } else {
            assert(body == chars@.subrange(start as int, end as int));
        }
    }
    if end < chars.len() || end == start {
        return None;
    }
    match value {
        Some(v) => Some(v as u64),
        None => None,
    }
}

/// The lower-case form of an ASCII capital; any other character itself.
pub open spec fn ascii_lower(c: char) -> char {
    if 'A' <= c <= 'Z' {
        ((c as u8) + 32) as char
    } else {
        c
    }
}

/// `s` starts with `prefix`.
pub open spec fn has_prefix(s: Seq<char>, prefix: Seq<char>) -> bool {
    s.len() >= prefix.len() && s.take(prefix.len() as int) == prefix
}

/// `s` starts with `prefix` once its ASCII capitals are lowered.
pub open spec fn has_lowered_prefix(s: Seq<char>, prefix: Seq<char>) -> bool {
    s.len() >= prefix.len() && forall|i: int|
        0 <= i < prefix.len() ==> ascii_lower(#[trigger] s[i]) == prefix[i]
}

/// `needle` stands in `s` at the place `at`, ASCII capitals of `s` lowered.
pub open spec fn lowered_match_at(s: Seq<char>, needle: Seq<char>, at: int) -> bool {
    0 <= at && at + needle.len() <= s.len() && forall|i: int|
        0 <= i < needle.len() ==> ascii_lower(#[trigger] s[at + i]) == needle[i]
}

/// `needle` stands somewhere in `s`, ASCII capitals of `s` lowered.
pub open spec fn contains_lowered(s: Seq<char>, needle: Seq<char>) -> bool {
    exists|at: int| lowered_match_at(s, needle, at)
}

/// The lower-case form of an ASCII capital; any other character itself.
pub fn lower_char(c: char) -> (l: char)
    ensures
        l == ascii_lower(c),
{
    if 'A' <= c && c <= 'Z' {
        ((c as u8) + 32) as char
    } else {
        c
    }
}

/// Whether `needle` stands in `s` at `at`, ASCII capitals of `s` lowered.
pub fn matches_lowered_at(s: &Vec<char>, needle: &Vec<char>, at: usize) -> (r: bool)
    ensures
        r == lowered_match_at(s@, needle@, at as int),
{
    if at > s.len() || needle.len() > s.len() - at {
        return false;
    }
    let mut i: usize = 0;
    while i < needle.len()
        invariant
            i <= needle@.len(),
            at + needle@.len() <= s@.len() <= usize::MAX,
            forall|j: int| 0 <= j < i ==> ascii_lower(#[trigger] s@[at + j]) == needle@[j],
        decreases needle@.len() - i,
    {
        if lower_char(s[at + i]) != needle[i] {
            return false;
        }
        i = i + 1;
    }
    true
}

/// Whether `s` starts with `prefix`, ASCII capitals of `s` lowered.
pub fn starts_with_lowered(s: &str, prefix: &str) -> (r: bool)
    ensures
        r == has_lowered_prefix(s@, prefix@),
{
    let chars: Vec<char> = chars_of(s);
    let wanted: Vec<char> = chars_of(prefix);
    let r: bool = matches_lowered_at(&chars, &wanted, 0);
    proof {
        if has_lowered_prefix(s@, prefix@) {
            assert forall|i: int| 0 <= i < prefix@.len() implies ascii_lower(
                #[trigger] s@[0 + i],
            ) == prefix@[i] by {
                assert(ascii_lower(s@[i]) == prefix@[i]);
            }
        }
        if r {
            assert forall|i: int| 0 <= i < prefix@.len() implies ascii_lower(#[trigger] s@[i])
                == prefix@[i] by {
                assert(ascii_lower(s@[0 + i]) == prefix@[i]);
            }
        }
    }
    r
}

/// Whether `needle` stands somewhere in `s`, ASCII capitals of `s` lowered.
pub fn contains_ignoring_case(s: &str, needle: &str) -> (r: bool)
    ensures
        r == contains_lowered(s@, needle@),
{
    let chars: Vec<char> = chars_of(s);
    let wanted: Vec<char> = chars_of(needle);
    if wanted.len() > chars.len() {
        assert forall|at: int| !lowered_match_at(s@, needle@, at) by {}
        return false;
    }
    let last: usize = chars.len() - wanted.len();
    let mut at: usize = 0;
    while at < last
        invariant
            at <= last,
            last == chars@.len() - wanted@.len(),
            chars@ == s@,
            wanted@ == needle@,
            forall|j: int| 0 <= j < at ==> !lowered_match_at(s@, needle@, j),
        decreases last - at,
    {
        if matches_lowered_at(&chars, &wanted, at) {
            return true;
        }
        at = at + 1;
    }
    if matches_lowered_at(&chars, &wanted, last) {
        return true;
    }
    assert forall|j: int| !lowered_match_at(s@, needle@, j) by {}
    false
}

/// Whether `s` starts with `prefix`.
pub fn starts_with(s: &str, prefix: &str) -> (r: bool)
    ensures
        r == has_prefix(s@, prefix@),
{
    let chars: Vec<char> = chars_of(s);
    let wanted: Vec<char> = chars_of(prefix);
    if wanted.len() > chars.len() {
        return false;
    }
    let mut i: usize = 0;
    while i < wanted.len()
        invariant
            i <= wanted@.len() <= chars@.len(),
            chars@ == s@,
            wanted@ == prefix@,
            forall|j: int| 0 <= j < i ==> chars@[j] == wanted@[j],
        decreases wanted@.len() - i,
    {
        if chars[i] != wanted[i] {
            proof {
                assert(s@.take(prefix@.len() as int)[i as int] == chars@[i as int]);
            }
            return false;
        }
        i = i + 1;
    }
    proof {
        assert(s@.take(prefix@.len() as int) =~= prefix@);
    }
    true
}

/// The character that writes the digit `d`.
pub open spec fn digit_char(d: int) -> char
    recommends
        0 <= d <= 9,
{
    (('0' as u8) + (d as u8)) as char
}

/// The decimal writing of a number, without leading zeros.
pub open spec fn decimal_text(n: nat) -> Seq<char>
    decreases n,
{
    if n < 10 {
        seq![digit_char(n as int)]
    } else {
        decimal_text(n / 10).push(digit_char((n % 10) as int))
    }
}

/// The writing of the digits that stand before the last one; none for a
/// number below ten.
pub open spec fn leading_text(n: nat) -> Seq<char> {
    if n >= 10 {
        decimal_text(n / 10)
    } else {
        Seq::<char>::empty()
    }
}

/// The one-character text of a digit.
pub fn digit_text(d: u8) -> (s: &'static str)
    requires
        d <= 9,
    ensures
        s@ == seq![digit_char(d as int)],
{
    proof {
        reveal_strlit("0");
        reveal_strlit("1");
        reveal_strlit("2");
        reveal_strlit("3");
        reveal_strlit("4");
        reveal_strlit("5");
        reveal_strlit("6");
        reveal_strlit("7");
        reveal_strlit("8");
        reveal_strlit("9");
    }
    let s: &'static str = if d == 0 {
        "0"
    } else if d == 1 {
        "1"
    } else if d == 2 {
        "2"
    } else if d == 3 {
        "3"
    } else if d == 4 {
        "4"
    } else if d == 5 {
        "5"
    } else if d == 6 {
        "6"
    } else if d == 7 {
        "7"
    } else if d == 8 {
        "8"
    } else {
        "9"
    };
    assert(s@ =~= seq![digit_char(d as int)]);
    s
}

/// Writes a number in decimal.
pub fn u64_to_text(n: u64) -> (s: String)
    ensures
        s@ == decimal_text(n as nat),
{
    let mut digits: Vec<u8> = Vec::new();
    digits.push((n % 10) as u8);
    let mut m: u64 = n / 10;
    let ghost mut tail: Seq<char> = seq![digit_char((n % 10) as int)];
    while m > 0
        invariant
            digits@.len() > 0,
            tail.len() == digits@.len(),
            forall|j: int| 0 <= j < digits@.len() ==> (#[trigger] digits@[j]) <= 9,
            forall|j: int|
                0 <= j < digits@.len() ==> tail[j] == digit_char(
                    (#[trigger] digits@[digits@.len() - 1 - j]) as int,
                ),
            decimal_text(n as nat) == (if m > 0 {
                decimal_text(m as nat)
            } else {
                Seq::<char>::empty()
            }) + tail,
        decreases m,
    {
        let ghost before = tail;
        let ghost old_digits = digits@;
        digits.push((m % 10) as u8);
        proof {
            tail = seq![digit_char((m % 10) as int)] + before;
            assert forall|j: int| 0 <= j < digits@.len() implies tail[j] == digit_char(
                (#[trigger] digits@[digits@.len() - 1 - j]) as int,
            ) by {
                if j > 0 {
                    assert(tail[j] == before[j - 1]);
                    assert(digits@[digits@.len() - 1 - j] == old_digits[old_digits.len() - 1 - (j
                        - 1)]);
                }
            }
            assert(decimal_text(m as nat) == leading_text(m as nat).push(
                digit_char((m % 10) as int),
            ));
            assert(leading_text(m as nat).push(digit_char((m % 10) as int)) + before
                =~= leading_text(m as nat) + tail);
        }
        m = m / 10;
    }
    let mut s: String = String::new();
    let mut i: usize = digits.len();
    while i > 0
        invariant
            i <= digits@.len(),
            tail.len() == digits@.len(),
            forall|j: int| 0 <= j < digits@.len() ==> (#[trigger] digits@[j]) <= 9,
            forall|j: int|
                0 <= j < digits@.len() ==> tail[j] == digit_char(
                    (#[trigger] digits@[digits@.len() - 1 - j]) as int,
                ),
            s@ == tail.take(digits@.len() - i),
        decreases i,
    {
        i = i - 1;
        let ghost before = s@;
        s.append(digit_text(digits[i]));
        proof {
            let k = digits@.len() - 1 - i;
            assert(tail[k] == digit_char(digits@[digits@.len() - 1 - k] as int));
            assert(s@ =~= tail.take(k + 1));
        }
    }
    proof {
        assert(tail.take(tail.len() as int) == tail);
        assert(Seq::<char>::empty() + tail =~= tail);
    }
    s
}

/// The character that writes the hexadecimal digit `d` in lower case.
pub open spec fn hex_char(d: int) -> char
    recommends
        0 <= d <= 15,
{
    if d < 10 {
        (('0' as u8) + (d as u8)) as char
    } else {
        (('a' as u8) + ((d - 10) as u8)) as char
    }
}

/// The last `width` hexadecimal digits of a number, in lower case, with
/// zeros in front where the number is short.
pub open spec fn hex_text(n: nat, width: nat) -> Seq<char>
    decreases width,
{
    if width == 0 {
        Seq::<char>::empty()
    } else {
        hex_text(n / 16, (width - 1) as nat).push(hex_char((n % 16) as int))
    }
}

/// `c` is a hexadecimal digit, in either case.
pub open spec fn is_hex_digit(c: char) -> bool {
    ('0' <= c <= '9') || ('a' <= c <= 'f') || ('A' <= c <= 'F')
}

/// The value of a hexadecimal digit.
pub open spec fn hex_digit_value(c: char) -> int {
    if '0' <= c <= '9' {
        c as int - '0' as int
    } else if 'a' <= c <= 'f' {
        c as int - 'a' as int + 10
    } else {
        c as int - 'A' as int + 10
    }
}

/// Every character of `s` is a hexadecimal digit.
pub open spec fn all_hex(s: Seq<char>) -> bool {
    forall|i: int| 0 <= i < s.len() ==> is_hex_digit(#[trigger] s[i])
}

/// The number that the hexadecimal digits of `s` write.
pub open spec fn hex_value(s: Seq<char>) -> int
    decreases s.len(),
{
    if s.len() == 0 {
        0
    } else {
        hex_value(s.drop_last()) * 16 + hex_digit_value(s.last())
    }
}

/// The one-character text of a hexadecimal digit.
pub fn hex_digit_text(d: u8) -> (s: &'static str)
    requires
        d <= 15,
    ensures
        s@ == seq![hex_char(d as int)],
{
    proof {
        reveal_strlit("a");
        reveal_strlit("b");
        reveal_strlit("c");
        reveal_strlit("d");
        reveal_strlit("e");
        reveal_strlit("f");
    }
    if d < 10 {
        digit_text(d)
    } else {
        let s: &'static str = if d == 10 {
            "a"
        } else if d == 11 {
            "b"
        } else if d == 12 {
            "c"
        } else if d == 13 {
            "d"
        } else if d == 14 {
            "e"
        } else {
            "f"
        };
        assert(s@ =~= seq![hex_char(d as int)]);
        s
    }
}

/// Appends the last `width` hexadecimal digits of a number to a text.
pub fn append_hex(out: &mut String, n: u64, width: usize)
    ensures
        final(out)@ == old(out)@ + hex_text(n as nat, width as nat),
{
    let mut digits: Vec<u8> = Vec::new();
    let mut m: u64 = n;
    let mut k: usize = 0;
    let ghost mut tail: Seq<char> = Seq::<char>::empty();
    while k < width
        invariant
            k <= width,
            digits@.len() == k,
            tail.len() == k,
            forall|j: int| 0 <= j < k ==> (#[trigger] digits@[j]) <= 15,
            forall|j: int|
                0 <= j < k ==> tail[j] == hex_char((#[trigger] digits@[k - 1 - j]) as int),
            hex_text(n as nat, width as nat) == hex_text(m as nat, (width - k) as nat) + tail,
        decreases width - k,
    {
        let ghost before = tail;
        let ghost old_digits = digits@;
        digits.push((m % 16) as u8);
        proof {
            tail = seq![hex_char((m % 16) as int)] + before;
            assert forall|j: int| 0 <= j < k + 1 implies tail[j] == hex_char(
                (#[trigger] digits@[k + 1 - 1 - j]) as int,
            ) by {
                if j > 0 {
                    assert(tail[j] == before[j - 1]);
                    assert(digits@[k - j] == old_digits[k - 1 - (j - 1)]);
                }
            }
            assert(hex_text(m as nat, (width - k) as nat) == hex_text(
                (m / 16) as nat,
                (width - k - 1) as nat,
            ).push(hex_char((m % 16) as int)));
            assert(hex_text((m / 16) as nat, (width - k - 1) as nat).push(
                hex_char((m % 16) as int),
            ) + before =~= hex_text((m / 16) as nat, (width - k - 1) as nat) + tail);
        }
        m = m / 16;
        k = k + 1;
    }
    proof {
        assert(hex_text(m as nat, 0) + tail =~= tail);
    }
    let mut i: usize = width;
    while i > 0
        invariant
            i <= width,
            digits@.len() == width,
            tail.len() == width,
            forall|j: int| 0 <= j < width ==> (#[trigger] digits@[j]) <= 15,
            forall|j: int|
                0 <= j < width ==> tail[j] == hex_char((#[trigger] digits@[width - 1 - j]) as int),
            out@ == old(out)@ + tail.take(width - i),
        decreases i,
    {
        i = i - 1;
        out.append(hex_digit_text(digits[i]));
        proof {
            let p = width - 1 - i;
            assert(tail[p] == hex_char(digits@[width - 1 - p] as int));
            assert(out@ =~= old(out)@ + tail.take(p + 1));
        }
    }
    proof {
        assert(tail.take(width as int) == tail);
    }
}

/// Whether the character is a hexadecimal digit.
pub fn is_hex_char(c: char) -> (r: bool)
    ensures
        r == is_hex_digit(c),
{
    ('0' <= c && c <= '9') || ('a' <= c && c <= 'f') || ('A' <= c && c <= 'F')
}

/// The value of a hexadecimal digit.
pub fn hex_digit_of(c: char) -> (d: u8)
    requires
        is_hex_digit(c),
    ensures
        d == hex_digit_value(c),
        d <= 15,
{
    if '0' <= c && c <= '9' {
        ((c as u32) - ('0' as u32)) as u8
    } else if 'a' <= c && c <= 'f' {
        ((c as u32) - ('a' as u32) + 10) as u8
    } else {
        ((c as u32) - ('A' as u32) + 10) as u8
    }
}

/// Sixteen to the power `n`.
pub open spec fn pow16(n: nat) -> int
    decreases n,
{
    if n == 0 {
        1
    } else {
        16 * pow16((n - 1) as nat)
    }
}

/// A run of hexadecimal digits writes a number from zero up to, and not
/// reaching, sixteen to the power of its length.
pub proof fn lemma_hex_value_bounds(s: Seq<char>)
    requires
        all_hex(s),
    ensures
        0 <= hex_value(s) < pow16(s.len()),
    decreases s.len(),
{
    if s.len() > 0 {
        lemma_hex_value_bounds(s.drop_last());
        assert(is_hex_digit(s.last()));
    }
}

/// The value of the hexadecimal digits of `chars` from `from` to the end,
/// where there are at most sixteen and all are digits.
pub fn hex_digits_at(chars: &Vec<char>, from: usize) -> (value: Option<u64>)
    requires
        from <= chars.len(),
        chars.len() - from <= 16,
    ensures
        value is Some == all_hex(chars@.skip(from as int)),
        value is Some ==> value->0 == hex_value(chars@.skip(from as int)),
{
    let mut value: u64 = 0;
    let mut i: usize = from;
    assert(chars@.subrange(from as int, from as int) == Seq::<char>::empty());
    while i < chars.len()
        invariant
            from <= i <= chars.len(),
            chars.len() - from <= 16,
            all_hex(chars@.subrange(from as int, i as int)),
            value == hex_value(chars@.subrange(from as int, i as int)),
            value < pow16((i - from) as nat),
        decreases chars.len() - i,
    {
        if !is_hex_char(chars[i]) {
            proof {
                assert(chars@.skip(from as int)[i - from] == chars@[i as int]);
            }
            return None;
        }
        proof {
            let before = chars@.subrange(from as int, i as int);
            let after = chars@.subrange(from as int, i + 1);
            assert(after.drop_last() == before);
            assert(after.last() == chars@[i as int]);
            assert forall|j: int| 0 <= j < after.len() implies is_hex_digit(
                #[trigger] after[j],
            ) by {
                if j < before.len() {
                    assert(after[j] == before[j]);
                }
            }
            lemma_pow16_at_most((i - from) as nat);
        }
        value = value * 16 + hex_digit_of(chars[i]) as u64;
        i = i + 1;
    }
    proof {
        assert(chars@.subrange(from as int, chars.len() as int) == chars@.skip(from as int));
    }
    Some(value)
}

/// Sixteen to a power of at most fifteen leaves room for one more digit in
/// 64 bits.
pub proof fn lemma_pow16_at_most(n: nat)
    requires
        n <= 15,
    ensures
        pow16(n) <= 0x1000_0000_0000_0000,
        pow16(n + 1) == 16 * pow16(n),
    decreases n,
{
    reveal_with_fuel(pow16, 17);
}

/// The characters of each text of a list.
pub open spec fn texts(list: Seq<String>) -> Seq<Seq<char>> {
    Seq::new(list.len(), |i: int| list[i]@)
}

} // verus!
