//! Text as sequences of characters: searching, splitting, trimming, and
//! numbers read from and written as text.

use vstd::prelude::*;
use vstd::std_specs::iter::IteratorSpec;
use vstd::string::StrSliceExecFns;
use vstd::string::StringExecFns;

verus! {

/// Equality of two string slices.
///
/// Calls `str::eq` of the standard library, which compares the two slices
/// byte by byte: the result is `true` exactly when both hold the same
/// characters.
#[verifier::external_body]
pub(crate) fn str_eq(a: &str, b: &str) -> (same: bool)
    ensures
        same == (a@ == b@),
{
    a == b
}

/// Appends one character.
///
/// Calls `String::push` of the standard library, which puts `c` behind the
/// characters that `s` holds.
#[verifier::external_body]
pub(crate) fn push_char(s: &mut String, c: char)
    ensures
        final(s)@ == old(s)@.push(c),
{
    s.push(c)
}

/// The length of `text` in bytes, as its UTF-8 form is kept in memory and
/// written to disk.
pub open spec fn byte_len(text: Seq<char>) -> usize {
    vstd::utf8::encode_utf8(text).len() as usize
}

/// The characters of a string slice.
pub fn chars_of(s: &str) -> (chars: Vec<char>)
    ensures
        chars@ == s@,
{
    let mut chars: Vec<char> = Vec::new();
    for c in it: s.chars()
        invariant
            it.seq() == s@,
            chars@ == s@.take(it.index()),
    {
        chars.push(c);
        assert(s@.take(it.index() + 1) == s@.take(it.index()).push(c));
    }
    assert(s@.take(s@.len() as int) == s@);
    chars
}

/// `needle` occurs in `hay` as a run of neighbouring characters.
pub open spec fn has_substring(hay: Seq<char>, needle: Seq<char>) -> bool {
    exists|i: int|
        0 <= i && i + needle.len() <= hay.len() && #[trigger] hay.subrange(i, i + needle.len())
            == needle
}

/// Whether `needle` occurs in `hay`.
pub fn contains_chars(hay: &Vec<char>, needle: &Vec<char>) -> (found: bool)
    ensures
        found == has_substring(hay@, needle@),
{
    let n = hay.len();
    let m = needle.len();
    if m > n {
        return false;
    }
    let mut i: usize = 0;
    while i <= n - m
        invariant
            n == hay@.len(),
            m == needle@.len(),
            m <= n,
            i <= n - m + 1,
            forall|k: int| 0 <= k < i ==> #[trigger] hay@.subrange(k, k + m) != needle@,
        decreases n - m + 1 - i,
    {
        let mut j: usize = 0;
        while j < m && hay[i + j] == needle[j]
            invariant
                n == hay@.len(),
                m == needle@.len(),
                i + m <= n,
                j <= m,
                forall|t: int| 0 <= t < j ==> hay@[i + t] == needle@[t],
            decreases m - j,
        {
            j += 1;
        }
        if j == m {
            assert(hay@.subrange(i as int, i + m) == needle@);
            return true;
        }
        assert(hay@.subrange(i as int, i + m)[j as int] != needle@[j as int]);
        i += 1;
    }
    false
}

/// Whether the character `c` occurs in `chars`.
pub fn contains_char(chars: &Vec<char>, c: char) -> (found: bool)
    ensures
        found == chars@.contains(c),
{
    let mut i: usize = 0;
    while i < chars.len()
        invariant
            i <= chars.len(),
            forall|k: int| 0 <= k < i ==> chars@[k] != c,
        decreases chars.len() - i,
    {
        if chars[i] == c {
            return true;
        }
        i += 1;
    }
    false
}

/// The digit of a value below sixteen: `0` to `9`, then `a` to `f`.
pub open spec fn digit_char(value: nat) -> char {
    if value < 10 {
        (('0' as u8) + value as u8) as char
    } else {
        (('a' as u8) + (value - 10) as u8) as char
    }
}

/// The digits of `n`, the highest first, without leading zeros; zero is
/// written `0`. The base is sixteen where `base` is, and ten otherwise.
pub open spec fn digits(n: nat, base: nat) -> Seq<char>
    decreases n,
{
    if base == 16 {
        if n < 16 {
            seq![digit_char(n)]
        } else {
            digits(n / 16, 16).push(digit_char(n % 16))
        }
    } else {
        if n < 10 {
            seq![digit_char(n)]
        } else {
            digits(n / 10, 10).push(digit_char(n % 10))
        }
    }
}

/// `n` in decimal.
pub open spec fn decimal(n: nat) -> Seq<char> {
    digits(n, 10)
}

/// `n` in decimal, with a minus sign before a negative number.
pub open spec fn signed_decimal(n: int) -> Seq<char> {
    if n < 0 {
        seq!['-'] + decimal((-n) as nat)
    } else {
        decimal(n as nat)
    }
}

/// `text` with zeros before it until it is `width` characters long.
pub open spec fn zero_padded(text: Seq<char>, width: nat) -> Seq<char>
    decreases width - text.len(),
{
    if text.len() >= width {
        text
    } else {
        zero_padded(seq!['0'] + text, width)
    }
}

fn digit_of(value: u8) -> (c: char)
    requires
        value < 16,
    ensures
        c == digit_char(value as nat),
{
    if value < 10 {
        (48u8 + value) as char
    } else {
        (97u8 + (value - 10)) as char
    }
}

/// Writes `n` in the base ten or sixteen.
pub fn number_text(n: u128, base: u8) -> (text: String)
    requires
        base == 10 || base == 16,
    ensures
        text@ == digits(n as nat, base as nat),
{
    let mut low_first: Vec<char> = Vec::new();
    let mut rest = n;
    let b = base as u128;
    while rest >= b
        invariant
            base == 10 || base == 16,
            b == base,
            digits(n as nat, base as nat) == digits(rest as nat, base as nat) + low_first@.reverse(),
        decreases rest,
    {
        let digit = digit_of((rest % b) as u8);
        proof {
            let higher = digits((rest / b) as nat, base as nat);
            assert(digits(rest as nat, base as nat) == higher.push(digit));
            assert(low_first@.push(digit).reverse() == seq![digit] + low_first@.reverse());
            assert(higher.push(digit) + low_first@.reverse() == higher + (seq![digit]
                + low_first@.reverse()));
        }
        low_first.push(digit);
        rest = rest / b;
    }
    let mut text = String::new();
    push_char(&mut text, digit_of(rest as u8));
    let mut i = low_first.len();
    while i > 0
        invariant
            i <= low_first.len(),
            text@ == digits(rest as nat, base as nat) + low_first@.reverse().take(
                low_first.len() - i,
            ),
        decreases i,
    {
        i -= 1;
        push_char(&mut text, low_first[i]);
        proof {
            let reversed = low_first@.reverse();
            let done = low_first.len() - i;
            assert(reversed.take(done as int) == reversed.take(done - 1).push(
                reversed[done - 1],
            ));
            assert(reversed[done - 1] == low_first@[i as int]);
        }
    }
    assert(low_first@.reverse().take(low_first.len() as int) == low_first@.reverse());
    text
}

/// Writes an unsigned number in decimal.
pub fn decimal_text(n: u64) -> (text: String)
    ensures
        text@ == decimal(n as nat),
{
    number_text(n as u128, 10)
}

/// Writes a signed number in decimal.
pub fn signed_decimal_text(n: i64) -> (text: String)
    ensures
        text@ == signed_decimal(n as int),
{
    if n < 0 {
        let magnitude = (-(n as i128)) as u128;
        let mut text = String::new();
        push_char(&mut text, '-');
        let tail = number_text(magnitude, 10);
        text.append(tail.as_str());
        text
    } else {
        number_text(n as u128, 10)
    }
}

/// `count` zeros.
pub open spec fn zeros(count: nat) -> Seq<char> {
    Seq::new(count, |k: int| '0')
}

/// Padding puts as many zeros before a text as it lacks to the width.
pub proof fn lemma_zero_padded(text: Seq<char>, width: nat)
    ensures
        zero_padded(text, width) == if text.len() >= width {
            text
        } else {
            zeros((width - text.len()) as nat) + text
        },
    decreases width - text.len(),
{
    if text.len() < width {
        let longer = seq!['0'] + text;
        lemma_zero_padded(longer, width);
        if longer.len() < width {
            assert(zeros((width - longer.len()) as nat) + longer == zeros(
                (width - text.len()) as nat,
            ) + text);
        } else {
            assert(longer == zeros((width - text.len()) as nat) + text);
        }
    }
}

/// Writes `n` in hexadecimal with lower-case digits, with zeros before it
/// up to `width` digits.
pub fn hex_text(n: u64, width: usize) -> (text: String)
    ensures
        text@ == zero_padded(digits(n as nat, 16), width as nat),
{
    let plain = number_text(n as u128, 16);
    let len = plain.as_str().unicode_len();
    let mut text = String::new();
    let mut i: usize = len;
    while i < width
        invariant
            len <= i,
            i <= width || i == len,
            text@ == zeros((i - len) as nat),
        decreases width - i,
    {
        assert(zeros((i - len) as nat).push('0') == zeros((i + 1 - len) as nat));
        push_char(&mut text, '0');
        i += 1;
    }
    proof {
        lemma_zero_padded(plain@, width as nat);
        assert(zeros(0) + plain@ == plain@);
    }
    text.append(plain.as_str());
    text
}

/// The number that a run of decimal digits stands for.
pub open spec fn decimal_value(digits: Seq<char>) -> nat
    decreases digits.len(),
{
    if digits.len() == 0 {
        0
    } else {
        decimal_value(digits.drop_last()) * 10 + ((digits.last() as u32) - ('0' as u32)) as nat
    }
}

/// Every character is one of the digits `0` to `9`.
pub open spec fn all_digits(text: Seq<char>) -> bool {
    forall|i: int| 0 <= i < text.len() ==> '0' <= #[trigger] text[i] <= '9'
}

/// The whole number that `text` stands for, if it is one between `min`
/// and `max`: an optional sign (`+`, and `-` where `signed`), then one
/// or more of the digits `0` to `9` and nothing else.
pub open spec fn parsed_int(text: Seq<char>, signed: bool, min: int, max: int) -> Option<int> {
    let negative = signed && text.len() > 0 && text[0] == '-';
    let digits = if text.len() > 0 && (text[0] == '+' || negative) {
        text.drop_first()
    } else {
        text
    };
    let value = if negative {
        -(decimal_value(digits) as int)
    } else {
        decimal_value(digits) as int
    };
    if digits.len() == 0 || !all_digits(digits) || value < min || value > max {
        None
    } else {
        Some(value)
    }
}

/// A longer run of digits stands for no smaller number.
pub proof fn lemma_decimal_value_grows(digits: Seq<char>, upto: int)
    requires
        0 <= upto <= digits.len(),
        all_digits(digits),
    ensures
        decimal_value(digits.take(upto)) <= decimal_value(digits),
    decreases digits.len() - upto,
{
    if upto < digits.len() {
        let init = digits.drop_last();
        assert(all_digits(init)) by {
            assert forall|i: int| 0 <= i < init.len() implies '0' <= #[trigger] init[i] <= '9' by {
                assert(init[i] == digits[i]);
            }
        }
        assert(init.take(upto) == digits.take(upto));
        lemma_decimal_value_grows(init, upto);
        assert('0' <= digits[digits.len() - 1] <= '9');
    } else {
        assert(digits.take(upto) == digits);
    }
}

/// Reads a whole number between `min` and `max` out of `text`.
pub fn parse_int(text: &str, signed: bool, min: i128, max: i128) -> (value: Option<i128>)
    requires
        -0x1_0000_0000_0000_0000 <= min,
        max <= 0x1_0000_0000_0000_0000,
    ensures
        parsed_int(text@, signed, min as int, max as int) == match value {
            Some(v) => Some(v as int),
            None => None,
        },
{
    let chars = chars_of(text);
    let n = chars.len();
    let negative = signed && n > 0 && chars[0] == '-';
    let start: usize = if n > 0 && (chars[0] == '+' || negative) {
        1
    } else {
        0
    };
    let ghost digits = if start == 1 {
        text@.drop_first()
    } else {
        text@
    };
    assert(digits == chars@.subrange(start as int, n as int));
    if start == n {
        return None;
    }
    let mut acc: i128 = 0;
    let mut i = start;
    while i < n
        invariant
            start <= i <= n,
            n == chars@.len(),
            -0x1_0000_0000_0000_0000 <= min,
            max <= 0x1_0000_0000_0000_0000,
            negative == (signed && text@.len() > 0 && text@[0] == '-'),
            digits == (if text@.len() > 0 && (text@[0] == '+' || negative) {
                text@.drop_first()
            } else {
                text@
            }),
            digits == chars@.subrange(start as int, n as int),
            acc == decimal_value(digits.take(i - start)),
            0 <= acc <= 0x1_0000_0000_0000_0000,
            forall|k: int| 0 <= k < i - start ==> '0' <= #[trigger] digits[k] <= '9',
        decreases n - i,
    {
        let c = chars[i];
        if !('0' <= c && c <= '9') {
            assert(!('0' <= digits[i - start] <= '9'));
            return None;
        }
        let d = (c as u32 - 48) as i128;
        proof {
            assert(digits.take(i + 1 - start).drop_last() == digits.take(i - start));
            assert(digits.take(i + 1 - start).last() == c);
        }
        acc = acc * 10 + d;
        i += 1;
        if acc > 0x1_0000_0000_0000_0000 {
            proof {
                if all_digits(digits) {
                    lemma_decimal_value_grows(digits, i - start);
                }
            }
            return None;
        }
    }
    assert(digits.take(n - start) == digits);
    let value = if negative {
        -acc
    } else {
        acc
    };
    if value < min || value > max {
        None
    } else {
        Some(value)
    }
}

/// The white space of Unicode: the characters with the property
/// `White_Space`.
pub open spec fn is_white_space(c: char) -> bool {
    let n = c as u32;
    ||| 0x09 <= n <= 0x0d
    ||| n == 0x20
    ||| n == 0x85
    ||| n == 0xa0
    ||| n == 0x1680
    ||| 0x2000 <= n <= 0x200a
    ||| n == 0x2028
    ||| n == 0x2029
    ||| n == 0x202f
    ||| n == 0x205f
    ||| n == 0x3000
}

/// `s` without the white space at its start.
pub open spec fn trimmed_start(s: Seq<char>) -> Seq<char>
    decreases s.len(),
{
    if s.len() > 0 && is_white_space(s[0]) {
        trimmed_start(s.drop_first())
    } else {
        s
    }
}

/// `s` without the white space at its end.
pub open spec fn trimmed_end(s: Seq<char>) -> Seq<char>
    decreases s.len(),
{
    if s.len() > 0 && is_white_space(s.last()) {
        trimmed_end(s.drop_last())
    } else {
        s
    }
}

/// `s` without the white space at its start and at its end.
pub open spec fn trimmed(s: Seq<char>) -> Seq<char> {
    trimmed_end(trimmed_start(s))
}

/// Whether `c` is white space.
pub fn is_white_space_char(c: char) -> (white: bool)
    ensures
        white == is_white_space(c),
{
    let n = c as u32;
    (0x09 <= n && n <= 0x0d) || n == 0x20 || n == 0x85 || n == 0xa0 || n == 0x1680 || (0x2000 <= n
        && n <= 0x200a) || n == 0x2028 || n == 0x2029 || n == 0x202f || n == 0x205f || n == 0x3000
}

/// Text that begins with something other than white space is trimmed at
/// its start already, and likewise at its end.
pub proof fn lemma_trimmed_parts(s: Seq<char>, from: int, to: int)
    requires
        0 <= from <= to <= s.len(),
        forall|k: int| 0 <= k < from ==> is_white_space(#[trigger] s[k]),
        forall|k: int| to <= k < s.len() ==> is_white_space(#[trigger] s[k]),
        from == to || (!is_white_space(s[from]) && !is_white_space(s[to - 1])),
    ensures
        trimmed(s) == s.subrange(from, to),
{
    if from == to {
        lemma_trimmed_start(s, s.len() as int);
        assert(s.subrange(s.len() as int, s.len() as int) == s.subrange(from, to));
    } else {
        lemma_trimmed_start(s, from);
        let rest = s.subrange(from, s.len() as int);
        assert(trimmed_start(s) == rest);
        lemma_trimmed_end(rest, to - from);
        assert(rest.subrange(0, to - from) == s.subrange(from, to));
    }
}

/// The start of a text is trimmed by dropping its leading white space.
pub proof fn lemma_trimmed_start(s: Seq<char>, from: int)
    requires
        0 <= from <= s.len(),
        forall|k: int| 0 <= k < from ==> is_white_space(#[trigger] s[k]),
        from == s.len() || !is_white_space(s[from]),
    ensures
        trimmed_start(s) == s.subrange(from, s.len() as int),
    decreases from,
{
    if from == 0 {
        assert(s.subrange(0, s.len() as int) == s);
    } else {
        let rest = s.drop_first();
        assert(is_white_space(s[0]));
        assert forall|k: int| 0 <= k < from - 1 implies is_white_space(#[trigger] rest[k]) by {
            assert(rest[k] == s[k + 1]);
        }
        lemma_trimmed_start(rest, from - 1);
        assert(rest.subrange(from - 1, rest.len() as int) == s.subrange(from, s.len() as int));
    }
}

/// The end of a text is trimmed by dropping its trailing white space.
pub proof fn lemma_trimmed_end(s: Seq<char>, to: int)
    requires
        0 <= to <= s.len(),
        forall|k: int| to <= k < s.len() ==> is_white_space(#[trigger] s[k]),
        to == 0 || !is_white_space(s[to - 1]),
    ensures
        trimmed_end(s) == s.subrange(0, to),
    decreases s.len() - to,
{
    if to == s.len() {
        assert(s.subrange(0, s.len() as int) == s);
    } else {
        let rest = s.drop_last();
        assert(is_white_space(s[s.len() - 1]));
        assert forall|k: int| to <= k < rest.len() implies is_white_space(#[trigger] rest[k]) by {
            assert(rest[k] == s[k]);
        }
        lemma_trimmed_end(rest, to);
        assert(rest.subrange(0, to) == s.subrange(0, to));
    }
}

/// The part of `chars` between `from` and `to` without the white space
/// around it, as the places where it begins and ends.
pub fn trim_bounds(chars: &Vec<char>, from: usize, to: usize) -> (bounds: (usize, usize))
    requires
        from <= to <= chars@.len(),
    ensures
        from <= bounds.0 <= bounds.1 <= to,
        chars@.subrange(bounds.0 as int, bounds.1 as int) == trimmed(
            chars@.subrange(from as int, to as int),
        ),
{
    let ghost part = chars@.subrange(from as int, to as int);
    let mut start = from;
    while start < to && is_white_space_char(chars[start])
        invariant
            from <= start <= to <= chars@.len(),
            forall|k: int| from <= k < start ==> is_white_space(#[trigger] chars@[k]),
        decreases to - start,
    {
        start += 1;
    }
    let mut end = to;
    while end > start && is_white_space_char(chars[end - 1])
        invariant
            start <= end <= to <= chars@.len(),
            forall|k: int| end <= k < to ==> is_white_space(#[trigger] chars@[k]),
        decreases end,
    {
        end -= 1;
    }
    proof {
        assert forall|k: int| 0 <= k < start - from implies is_white_space(#[trigger] part[k]) by {
            assert(part[k] == chars@[from + k]);
        }
        assert forall|k: int| end - from <= k < part.len() implies is_white_space(
            #[trigger] part[k],
        ) by {
            assert(part[k] == chars@[from + k]);
        }
        lemma_trimmed_parts(part, start - from, end - from);
        assert(part.subrange(start - from, end - from) == chars@.subrange(
            start as int,
            end as int,
        ));
    }
    (start, end)
}

/// The characters of `chars` between `from` and `to` as a string.
pub fn string_of(chars: &Vec<char>, from: usize, to: usize) -> (text: String)
    requires
        from <= to <= chars@.len(),
    ensures
        text@ == chars@.subrange(from as int, to as int),
{
    let mut text = String::new();
    let mut i = from;
    while i < to
        invariant
            from <= i <= to <= chars@.len(),
            text@ == chars@.subrange(from as int, i as int),
        decreases to - i,
    {
        push_char(&mut text, chars[i]);
        assert(chars@.subrange(from as int, i + 1) == chars@.subrange(from as int, i as int).push(
            chars@[i as int],
        ));
        i += 1;
    }
    text
}

/// The text without the white space around it.
pub fn trim(s: &str) -> (inner: String)
    ensures
        inner@ == trimmed(s@),
{
    let chars = chars_of(s);
    assert(chars@.subrange(0, chars@.len() as int) == chars@);
    let (from, to) = trim_bounds(&chars, 0, chars.len());
    string_of(&chars, from, to)
}

/// The place of the first `c` in `s`, or the length of `s` where there is
/// none.
pub open spec fn index_of_char(s: Seq<char>, c: char) -> int
    decreases s.len(),
{
    if s.len() == 0 {
        0
    } else if s[0] == c {
        0
    } else {
        1 + index_of_char(s.drop_first(), c)
    }
}

/// The first `c` in a text stands where no earlier character is `c`.
pub proof fn lemma_index_of_char(s: Seq<char>, c: char, at: int)
    requires
        0 <= at <= s.len(),
        forall|k: int| 0 <= k < at ==> #[trigger] s[k] != c,
        at == s.len() || s[at] == c,
    ensures
        index_of_char(s, c) == at,
    decreases at,
{
    if at > 0 {
        let rest = s.drop_first();
        assert(s[0] != c);
        assert forall|k: int| 0 <= k < at - 1 implies #[trigger] rest[k] != c by {
            assert(rest[k] == s[k + 1]);
        }
        lemma_index_of_char(rest, c, at - 1);
    }
}

/// Finds the first `c` between `from` and `to`; `to` where there is none.
pub fn find_char(chars: &Vec<char>, from: usize, to: usize, c: char) -> (at: usize)
    requires
        from <= to <= chars@.len(),
    ensures
        from <= at <= to,
        at == from + index_of_char(chars@.subrange(from as int, to as int), c),
{
    let ghost part = chars@.subrange(from as int, to as int);
    let mut at = from;
    while at < to && chars[at] != c
        invariant
            from <= at <= to <= chars@.len(),
            forall|k: int| from <= k < at ==> #[trigger] chars@[k] != c,
        decreases to - at,
    {
        at += 1;
    }
    proof {
        assert forall|k: int| 0 <= k < at - from implies #[trigger] part[k] != c by {
            assert(part[k] == chars@[from + k]);
        }
        if at < to {
            assert(part[at - from] == chars@[at as int]);
        }
        lemma_index_of_char(part, c, at - from);
    }
    at
}

/// Whether the characters of `chars` between `from` and `to` are those of
/// `text`.
pub fn range_equals(chars: &Vec<char>, from: usize, to: usize, text: &Vec<char>) -> (same: bool)
    requires
        from <= to <= chars@.len(),
    ensures
        same == (chars@.subrange(from as int, to as int) == text@),
{
    if to - from != text.len() {
        return false;
    }
    let mut i: usize = 0;
    while i < text.len()
        invariant
            from <= to <= chars@.len(),
            to - from == text@.len(),
            i <= text@.len(),
            forall|k: int| 0 <= k < i ==> chars@[from + k] == text@[k],
        decreases text.len() - i,
    {
        if chars[from + i] != text[i] {
            assert(chars@.subrange(from as int, to as int)[i as int] != text@[i as int]);
            return false;
        }
        i += 1;
    }
    assert(chars@.subrange(from as int, to as int) == text@);
    true
}

/// The parts of `text` between the characters `sep`, in order: one more
/// than there are separators.
pub open spec fn split_on(text: Seq<char>, sep: char) -> Seq<Seq<char>>
    decreases text.len(),
{
    let end = index_of_char(text, sep);
    if 0 <= end < text.len() {
        seq![text.take(end)] + split_on(text.skip(end + 1), sep)
    } else {
        seq![text]
    }
}

/// The views of a sequence of strings.
pub open spec fn texts(strings: Seq<String>) -> Seq<Seq<char>> {
    strings.map_values(|s: String| s@)
}

/// Splits the characters between `from` and `to` at every `sep`.
pub fn split_range(chars: &Vec<char>, from: usize, to: usize, sep: char) -> (parts: Vec<String>)
    requires
        from <= to <= chars@.len(),
    ensures
        texts(parts@) == split_on(chars@.subrange(from as int, to as int), sep),
        parts@.len() >= 1,
{
    let ghost whole = chars@.subrange(from as int, to as int);
    let mut parts: Vec<String> = Vec::new();
    let mut start = from;
    assert(texts(parts@) == Seq::<Seq<char>>::empty());
    assert(Seq::<Seq<char>>::empty() + split_on(whole, sep) == split_on(whole, sep));
    loop
        invariant
            from <= start <= to <= chars@.len(),
            whole == chars@.subrange(from as int, to as int),
            split_on(whole, sep) == texts(parts@) + split_on(
                chars@.subrange(start as int, to as int),
                sep,
            ),
        decreases to - start,
    {
        let ghost rest = chars@.subrange(start as int, to as int);
        let end = find_char(chars, start, to, sep);
        let part = string_of(chars, start, end);
        proof {
            assert(chars@.subrange(start as int, end as int) == rest.take(end - start));
            assert(texts(parts@.push(part)) == texts(parts@).push(part@));
        }
        if end >= to {
            proof {
                assert(rest.take(end - start) == rest);
                assert(texts(parts@) + seq![rest] == texts(parts@).push(rest));
            }
            parts.push(part);
            return parts;
        }
        proof {
            assert(rest.skip(end - start + 1) == chars@.subrange(end + 1, to as int));
            let tail = split_on(chars@.subrange(end + 1, to as int), sep);
            assert(texts(parts@) + (seq![rest.take(end - start)] + tail) == texts(parts@).push(
                part@,
            ) + tail);
        }
        parts.push(part);
        start = end + 1;
    }
}

/// Splits `text` at every `sep`.
pub fn split_text(text: &str, sep: char) -> (parts: Vec<String>)
    ensures
        texts(parts@) == split_on(text@, sep),
        parts@.len() >= 1,
{
    let chars = chars_of(text);
    assert(chars@.subrange(0, chars@.len() as int) == chars@);
    split_range(&chars, 0, chars.len(), sep)
}

/// A line without the carriage return at its end, if it has one.
pub open spec fn without_return(line: Seq<char>) -> Seq<char> {
    if line.len() > 0 && line.last() == '\r' {
        line.drop_last()
    } else {
        line
    }
}

/// The lines of `text`: what stands before each of its line feeds,
/// without a carriage return right before the line feed, and what stands
/// behind the last line feed, if anything does. An empty text has no
/// line.
pub open spec fn lines_of(text: Seq<char>) -> Seq<Seq<char>>
    decreases text.len(),
{
    if text.len() == 0 {
        Seq::empty()
    } else {
        let end = index_of_char(text, '\n');
        if 0 <= end < text.len() {
            seq![without_return(text.take(end))] + lines_of(text.skip(end + 1))
        } else {
            seq![text]
        }
    }
}

/// Splits `text` into its lines.
pub fn lines(text: &str) -> (found: Vec<String>)
    ensures
        texts(found@) == lines_of(text@),
{
    let chars = chars_of(text);
    let n = chars.len();
    let mut found: Vec<String> = Vec::new();
    let mut start: usize = 0;
    assert(texts(found@) == Seq::<Seq<char>>::empty());
    assert(chars@.skip(0) == chars@);
    assert(Seq::<Seq<char>>::empty() + lines_of(text@) == lines_of(text@));
    while start < n
        invariant
            start <= n,
            n == chars@.len(),
            chars@ == text@,
            lines_of(text@) == texts(found@) + lines_of(chars@.skip(start as int)),
        decreases n - start,
    {
        let ghost rest = chars@.skip(start as int);
        assert(rest == chars@.subrange(start as int, n as int));
        let end = find_char(&chars, start, n, '\n');
        let stop = if end < n && end > start && chars[end - 1] == '\r' {
            end - 1
        } else {
            end
        };
        let line = string_of(&chars, start, stop);
        proof {
            let raw = rest.take(end - start);
            assert(raw == chars@.subrange(start as int, end as int));
            if raw.len() > 0 {
                assert(raw.last() == chars@[end - 1]);
            }
            if end < n {
                assert(line@ == without_return(raw)) by {
                    if stop < end {
                        assert(raw.drop_last() == chars@.subrange(start as int, stop as int));
                    }
                }
            }
            assert(texts(found@.push(line)) == texts(found@).push(line@));
        }
        if end >= n {
            proof {
                assert(rest.take(end - start) == rest);
                assert(texts(found@) + seq![rest] == texts(found@).push(rest));
                assert(chars@.skip(n as int).len() == 0);
                assert(texts(found@).push(line@) + lines_of(chars@.skip(n as int)) == texts(
                    found@,
                ).push(line@));
            }
            found.push(line);
            start = n;
        } else {
            proof {
                assert(rest.skip(end - start + 1) == chars@.skip(end + 1));
                let tail = lines_of(chars@.skip(end + 1));
                assert(texts(found@) + (seq![line@] + tail) == texts(found@).push(line@) + tail);
            }
            found.push(line);
            start = end + 1;
        }
    }
    assert(chars@.skip(n as int).len() == 0);
    assert(texts(found@) + Seq::<Seq<char>>::empty() == texts(found@));
    found
}

/// The words of `text` behind those of `current`: `current` is the word
/// that was begun before `text`.
pub open spec fn words_from(text: Seq<char>, current: Seq<char>) -> Seq<Seq<char>>
    decreases text.len(),
{
    if text.len() == 0 {
        if current.len() > 0 {
            seq![current]
        } else {
            Seq::empty()
        }
    } else if is_white_space(text[0]) {
        if current.len() > 0 {
            seq![current] + words_from(text.drop_first(), Seq::empty())
        } else {
            words_from(text.drop_first(), Seq::empty())
        }
    } else {
        words_from(text.drop_first(), current.push(text[0]))
    }
}

/// The words of `text`: its runs of characters that are no white space.
pub open spec fn words_of(text: Seq<char>) -> Seq<Seq<char>> {
    words_from(text, Seq::empty())
}

/// Splits `text` into its words.
pub fn words(text: &str) -> (found: Vec<String>)
    ensures
        texts(found@) == words_of(text@),
{
    let chars = chars_of(text);
    let n = chars.len();
    let mut found: Vec<String> = Vec::new();
    let mut begun: usize = 0;
    let mut i: usize = 0;
    assert(texts(found@) == Seq::<Seq<char>>::empty());
    assert(chars@.skip(0) == chars@);
    assert(chars@.subrange(0, 0) == Seq::<char>::empty());
    assert(Seq::<Seq<char>>::empty() + words_of(text@) == words_of(text@));
    while i < n
        invariant
            begun <= i <= n,
            n == chars@.len(),
            chars@ == text@,
            words_of(text@) == texts(found@) + words_from(
                chars@.skip(i as int),
                chars@.subrange(begun as int, i as int),
            ),
        decreases n - i,
    {
        let ghost rest = chars@.skip(i as int);
        let ghost current = chars@.subrange(begun as int, i as int);
        proof {
            assert(rest.len() > 0);
            assert(rest[0] == chars@[i as int]);
            assert(rest.drop_first() == chars@.skip(i + 1));
        }
        if is_white_space_char(chars[i]) {
            if begun < i {
                let word = string_of(&chars, begun, i);
                proof {
                    assert(texts(found@.push(word)) == texts(found@).push(word@));
                    let tail = words_from(chars@.skip(i + 1), Seq::empty());
                    assert(texts(found@) + (seq![current] + tail) == texts(found@).push(current)
                        + tail);
                }
                found.push(word);
            }
            begun = i + 1;
            assert(chars@.subrange(i + 1, i + 1) == Seq::<char>::empty());
        } else {
            assert(current.push(chars@[i as int]) == chars@.subrange(begun as int, i + 1));
        }
        i += 1;
    }
    proof {
        assert(chars@.skip(n as int).len() == 0);
    }
    if begun < n {
        let word = string_of(&chars, begun, n);
        proof {
            assert(texts(found@.push(word)) == texts(found@).push(word@));
            assert(texts(found@) + seq![word@] == texts(found@).push(word@));
        }
        found.push(word);
    } else {
        assert(texts(found@) + Seq::<Seq<char>>::empty() == texts(found@));
    }
    found
}

/// The parts one after the other, `sep` between each two.
pub open spec fn joined_with(parts: Seq<Seq<char>>, sep: Seq<char>) -> Seq<char>
    decreases parts.len(),
{
    if parts.len() == 0 {
        Seq::empty()
    } else if parts.len() == 1 {
        parts[0]
    } else {
        joined_with(parts.drop_last(), sep) + sep + parts.last()
    }
}

/// Joins the strings of `parts` from the place `from` on, `sep` between
/// each two.
pub fn join_from(parts: &Vec<String>, from: usize, sep: &str) -> (joined: String)
    requires
        from <= parts@.len(),
    ensures
        joined@ == joined_with(texts(parts@).skip(from as int), sep@),
{
    let ghost wanted = texts(parts@).skip(from as int);
    let mut joined = String::new();
    let mut i = from;
    while i < parts.len()
        invariant
            from <= i <= parts@.len(),
            wanted == texts(parts@).skip(from as int),
            joined@ == joined_with(wanted.take(i - from), sep@),
        decreases parts.len() - i,
    {
        proof {
            assert(wanted.take(i + 1 - from).drop_last() == wanted.take(i - from));
            assert(wanted.take(i + 1 - from).last() == parts@[i as int]@);
            if i == from {
                assert(Seq::<char>::empty() + parts@[i as int]@ == parts@[i as int]@);
            }
        }
        if i > from {
            joined.append(sep);
        }
        joined.append(parts[i].as_str());
        i += 1;
    }
    assert(wanted.take(parts@.len() - from) == wanted);
    joined
}

/// `text` ends with `suffix`.
pub open spec fn has_suffix(text: Seq<char>, suffix: Seq<char>) -> bool {
    suffix.len() <= text.len() && text.subrange(text.len() - suffix.len(), text.len() as int)
        == suffix
}

/// Whether `text` ends with `suffix`.
pub fn ends_with(text: &str, suffix: &str) -> (ends: bool)
    ensures
        ends == has_suffix(text@, suffix@),
{
    let chars = chars_of(text);
    let wanted = chars_of(suffix);
    if wanted.len() > chars.len() {
        return false;
    }
    range_equals(&chars, chars.len() - wanted.len(), chars.len(), &wanted)
}

/// `text` begins with `prefix`.
pub open spec fn has_prefix(text: Seq<char>, prefix: Seq<char>) -> bool {
    prefix.len() <= text.len() && text.subrange(0, prefix.len() as int) == prefix
}

/// Whether `text` begins with `prefix`.
pub fn starts_with(text: &str, prefix: &str) -> (starts: bool)
    ensures
        starts == has_prefix(text@, prefix@),
{
    let chars = chars_of(text);
    let wanted = chars_of(prefix);
    if wanted.len() > chars.len() {
        return false;
    }
    range_equals(&chars, 0, wanted.len(), &wanted)
}

/// Whether `s` begins with the character `c`.
pub fn starts_with_char(s: &str, c: char) -> (starts: bool)
    ensures
        starts == (s@.len() > 0 && s@[0] == c),
{
    let mut chars = s.chars();
    proof {
        broadcast use vstd::string::group_string_axioms;

    }
    match chars.next() {
        Some(first) => first == c,
        None => false,
    }
}

} // verus!
