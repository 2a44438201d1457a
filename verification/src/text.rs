//! Text helpers shared by the components: character access, prefix and
//! substring tests, lower-casing and decimal numerals.

use vstd::prelude::*;
use vstd::string::*;

verus! {

/// The lower-case form of a text, as the standard library computes it from
/// the Unicode tables.
pub uninterp spec fn lowercase_of(text: Seq<char>) -> Seq<char>;

/// Calls `str::to_lowercase`. Trusted: the returned string is the
/// lower-case form of `text`, which depends on `text` alone.
#[verifier::external_body]
pub(crate) fn to_lowercase(text: &str) -> (lower: String)
    ensures
        lower@ == lowercase_of(text@),
{
    text.to_lowercase()
}

/// `text` begins with `pattern`.
pub open spec fn has_prefix(text: Seq<char>, pattern: Seq<char>) -> bool {
    pattern.is_prefix_of(text)
}

/// `pattern` occurs in `text` starting at position `at`.
pub open spec fn occurs_at(text: Seq<char>, pattern: Seq<char>, at: int) -> bool {
    &&& 0 <= at
    &&& at + pattern.len() <= text.len()
    &&& text.subrange(at, at + pattern.len()) == pattern
}

/// `pattern` occurs somewhere in `text`.
pub open spec fn has_infix(text: Seq<char>, pattern: Seq<char>) -> bool {
    exists|at: int| occurs_at(text, pattern, at)
}

/// The characters of a string, one by one.
pub fn chars_of(s: &str) -> (chars: Vec<char>)
    ensures
        chars@ == s@,
{
    let n = s.unicode_len();
    let mut chars: Vec<char> = Vec::new();
    let mut i: usize = 0;
    while i < n
        invariant
            n == s@.len(),
            i <= n,
            chars@ == s@.subrange(0, i as int),
        decreases n - i,
    {
        chars.push(s.get_char(i));
        i += 1;
        assert(chars@ =~= s@.subrange(0, i as int));
    }
    assert(s@.subrange(0, n as int) =~= s@);
    chars
}

/// Whether `pattern` stands in `text` at position `at`.
pub fn matches_at(text: &Vec<char>, pattern: &Vec<char>, at: usize) -> (found: bool)
    ensures
        found == occurs_at(text@, pattern@, at as int),
{
    if at > text.len() || pattern.len() > text.len() - at {
        return false;
    }
    let mut k: usize = 0;
    while k < pattern.len()
        invariant
            k <= pattern.len(),
            at + pattern.len() <= text.len(),
            forall|j: int| 0 <= j < k ==> text@[at + j] == pattern@[j],
        decreases pattern.len() - k,
    {
        if text[at + k] != pattern[k] {
            assert(text@.subrange(at as int, at + pattern.len())[k as int] != pattern@[k as int]);
            return false;
        }
        k += 1;
    }
    assert(text@.subrange(at as int, at + pattern.len()) =~= pattern@);
    true
}

/// Whether `text` begins with `pattern`.
pub fn starts_with(text: &Vec<char>, pattern: &str) -> (found: bool)
    ensures
        found == has_prefix(text@, pattern@),
{
    let pat = chars_of(pattern);
    let found = matches_at(text, &pat, 0);
    proof {
        if found {
            assert(text@.subrange(0, pat@.len() as int) == pat@);
            assert(pat@.is_prefix_of(text@));
        }
        if pat@.is_prefix_of(text@) {
            assert(text@.subrange(0, pat@.len() as int) =~= pat@);
        }
    }
    found
}

/// Whether `pattern` occurs somewhere in `text`.
pub fn contains(text: &Vec<char>, pattern: &str) -> (found: bool)
    ensures
        found == has_infix(text@, pattern@),
{
    let pat = chars_of(pattern);
    if pat.len() > text.len() {
        return false;
    }
    let last: usize = text.len() - pat.len();
    let mut at: usize = 0;
    while at < last
        invariant
            pat@ == pattern@,
            last == text.len() - pat.len(),
            at <= last,
            forall|j: int| 0 <= j < at ==> !occurs_at(text@, pat@, j),
        decreases last - at,
    {
        if matches_at(text, &pat, at) {
            return true;
        }
        at += 1;
    }
    matches_at(text, &pat, last)
}

/// Whether `text` is exactly `pattern`.
pub fn equals(text: &Vec<char>, pattern: &str) -> (same: bool)
    ensures
        same == (text@ == pattern@),
{
    let pat = chars_of(pattern);
    let same = pat.len() == text.len() && matches_at(text, &pat, 0);
    proof {
        if text@ == pat@ {
            assert(text@.subrange(0, pat@.len() as int) =~= pat@);
        }
        if same {
            assert(text@.subrange(0, pat@.len() as int) =~= text@);
        }
    }
    same
}

/// Whether `c` is one of the ten ASCII digits.
pub open spec fn is_digit(c: char) -> bool {
    '0' <= c && c <= '9'
}

/// The number that the digit `c` stands for.
pub open spec fn digit_value(c: char) -> nat {
    (c as u32 - '0' as u32) as nat
}

/// The number that a run of digits denotes in base ten.
pub open spec fn digits_value(digits: Seq<char>) -> nat
    decreases digits.len(),
{
    if digits.len() == 0 {
        0
    } else {
        digits_value(digits.drop_last()) * 10 + digit_value(digits.last())
    }
}

/// Every character of `digits` is an ASCII digit.
pub open spec fn all_digits(digits: Seq<char>) -> bool {
    forall|i: int| 0 <= i < digits.len() ==> is_digit(#[trigger] digits[i])
}

/// The part of a numeral that follows an optional leading `+`.
pub open spec fn unsigned_part(text: Seq<char>) -> Seq<char> {
    if text.len() > 0 && text[0] == '+' {
        text.skip(1)
    } else {
        text
    }
}

/// The 32-bit number that `text` denotes: an optional `+`, then at least one
/// digit and nothing else, with a value that fits. Any other text denotes
/// none.
pub open spec fn parsed_u32(text: Seq<char>) -> Option<u32> {
    let digits = unsigned_part(text);
    if digits.len() > 0 && all_digits(digits) && digits_value(digits) <= u32::MAX {
        Some(digits_value(digits) as u32)
    } else {
        None
    }
}

/// A run of digits is worth at least as much as any of its prefixes.
pub proof fn lemma_digits_value_prefix(digits: Seq<char>, k: int)
    requires
        0 <= k <= digits.len(),
    ensures
        digits_value(digits.take(k)) <= digits_value(digits),
    decreases digits.len(),
{
    if k == digits.len() {
        assert(digits.take(k) =~= digits);
    } else {
        lemma_digits_value_prefix(digits.drop_last(), k);
        assert(digits.drop_last().take(k) =~= digits.take(k));
    }
}

/// Reads a 32-bit number as `str::parse::<u32>` does.
pub fn parse_u32(text: &Vec<char>) -> (value: Option<u32>)
    ensures
        value == parsed_u32(text@),
{
    let start: usize = if text.len() > 0 && text[0] == '+' { 1 } else { 0 };
    let ghost digits = unsigned_part(text@);
    assert(digits =~= text@.skip(start as int));
    if start == text.len() {
        return None;
    }
    let mut acc: u64 = 0;
    let mut i: usize = start;
    while i < text.len()
        invariant
            start <= i <= text.len(),
            digits == text@.skip(start as int),
            digits == unsigned_part(text@),
            all_digits(digits.take(i - start)),
            acc == digits_value(digits.take(i - start)),
            acc <= u32::MAX,
        decreases text.len() - i,
    {
        let c = text[i];
        let ghost next = digits.take(i - start + 1);
        assert(next.drop_last() =~= digits.take(i - start));
        assert(next.last() == c);
        if !(c >= '0' && c <= '9') {
            assert(digits[i - start] == c);
            assert(!is_digit(digits[i - start]));
            assert(!all_digits(digits));
            return None;
        }
        let d: u64 = (c as u32 - '0' as u32) as u64;
        acc = acc * 10 + d;
        assert(all_digits(next)) by {
            assert forall|j: int| 0 <= j < next.len() implies is_digit(#[trigger] next[j]) by {
                if j < next.len() - 1 {
                    assert(next[j] == digits.take(i - start)[j]);
                }
            }
        }
        if acc > 0xffff_ffff {
            proof {
                lemma_digits_value_prefix(digits, i - start + 1);
                assert(digits_value(digits) > u32::MAX);
            }
            return None;
        }
        i += 1;
    }
    assert(digits.take(i - start) =~= digits);
    Some(acc as u32)
}

/// The character of a digit below ten.
pub open spec fn digit_char(d: nat) -> char {
    if d == 0 {
        '0'
    } else if d == 1 {
        '1'
    } else if d == 2 {
        '2'
    } else if d == 3 {
        '3'
    } else if d == 4 {
        '4'
    } else if d == 5 {
        '5'
    } else if d == 6 {
        '6'
    } else if d == 7 {
        '7'
    } else if d == 8 {
        '8'
    } else {
        '9'
    }
}

/// The decimal numeral of `n`, without sign or leading zeros.
pub open spec fn decimal_text(n: nat) -> Seq<char>
    decreases n,
{
    if n < 10 {
        seq![digit_char(n)]
    } else {
        decimal_text(n / 10).push(digit_char(n % 10))
    }
}

fn digit_str(d: u64) -> (s: &'static str)
    requires
        d < 10,
    ensures
        s@ == seq![digit_char(d as nat)],
{
    proof {
        reveal_strlit("0");
        reveal_strlit("1");
        reveal_strlit("2");
        reveal_strlit("3");
        reveal_strlit("4");
        reveal_strlit("5");
        reveal_strlit("6");
        reveal_strlit("7");
        reveal_strlit("8");
        reveal_strlit("9");
    }
    let s = if d == 0 {
        "0"
    } else if d == 1 {
        "1"
    } else if d == 2 {
        "2"
    } else if d == 3 {
        "3"
    } else if d == 4 {
        "4"
    } else if d == 5 {
        "5"
    } else if d == 6 {
        "6"
    } else if d == 7 {
        "7"
    } else if d == 8 {
        "8"
    } else {
        "9"
    };
    assert(s@ =~= seq![digit_char(d as nat)]);
    s
}

/// Writes `n` in base ten.
pub fn decimal_string(n: u64) -> (s: String)
    ensures
        s@ == decimal_text(n as nat),
    decreases n,
{
    if n < 10 {
        String::from_str(digit_str(n))
    } else {
        let mut s = decimal_string(n / 10);
        s.append(digit_str(n % 10));
        assert(s@ =~= decimal_text((n / 10) as nat).push(digit_char((n % 10) as nat)));
        s
    }
}

/// The decimal numeral of a whole number: a minus sign before the numeral
/// of a negative one.
pub open spec fn signed_decimal_text(n: int) -> Seq<char> {
    if n < 0 {
        "-"@ + decimal_text((-n) as nat)
    } else {
        decimal_text(n as nat)
    }
}

/// Writes a whole number in base ten.
pub fn signed_decimal_string(n: i64) -> (s: String)
    ensures
        s@ == signed_decimal_text(n as int),
{
    if n < 0 {
        let magnitude: u64 = if n == i64::MIN {
            0x8000_0000_0000_0000
        } else {
            (-n) as u64
        };
        let mut s = String::from_str("-");
        s.append(decimal_string(magnitude).as_str());
        s
    } else {
        decimal_string(n as u64)
    }
}

/// The numeral of a number is made of digits and denotes that number.
pub proof fn lemma_decimal_text_value(n: nat)
    ensures
        decimal_text(n).len() > 0,
        all_digits(decimal_text(n)),
        digits_value(decimal_text(n)) == n,
        decimal_text(n)[0] != '+',
    decreases n,
{
    if n < 10 {
        let t = decimal_text(n);
        assert(t.drop_last() =~= Seq::<char>::empty());
        assert(digits_value(t.drop_last()) == 0);
        assert(digits_value(t) == digit_value(t.last()));
    } else {
        lemma_decimal_text_value(n / 10);
        let head = decimal_text(n / 10);
        let t = decimal_text(n);
        assert(t.drop_last() =~= head);
        assert(t.last() == digit_char(n % 10));
        assert(digit_value(digit_char(n % 10)) == n % 10);
        assert(t[0] == head[0]);
        assert forall|i: int| 0 <= i < t.len() implies is_digit(#[trigger] t[i]) by {
            if i < head.len() {
                assert(t[i] == head[i]);
            }
        }
    }
}

/// Reading back the numeral of a 32-bit number gives that number.
pub proof fn lemma_parse_decimal(n: u32)
    ensures
        parsed_u32(decimal_text(n as nat)) == Some(n),
{
    lemma_decimal_text_value(n as nat);
}

/// The characters `from .. to` of `text`.
pub fn slice_chars(text: &Vec<char>, from: usize, to: usize) -> (part: Vec<char>)
    requires
        from <= to <= text.len(),
    ensures
        part@ == text@.subrange(from as int, to as int),
{
    let mut part: Vec<char> = Vec::new();
    let mut i: usize = from;
    while i < to
        invariant
            from <= i <= to <= text.len(),
            part@ == text@.subrange(from as int, i as int),
        decreases to - i,
    {
        part.push(text[i]);
        i += 1;
        assert(part@ =~= text@.subrange(from as int, i as int));
    }
    part
}

/// The characters `start .. end` of `text` make up one line: the line
/// begins at the start of the text or after a line feed, holds no line feed,
/// and ends before a line feed or at the end of the text. No line begins at
/// the very end of the text.
pub open spec fn is_line(text: Seq<char>, start: int, end: int) -> bool {
    &&& 0 <= start <= end <= text.len()
    &&& start < text.len()
    &&& (start == 0 || text[start - 1] == '\n')
    &&& (forall|k: int| start <= k < end ==> text[k] != '\n')
    &&& (end == text.len() || text[end] == '\n')
}

/// What the line `start .. end` holds: a carriage return before the line
/// feed does not belong to it.
pub open spec fn line_content(text: Seq<char>, start: int, end: int) -> Seq<char> {
    if end < text.len() && start < end && text[end - 1] == '\r' {
        text.subrange(start, end - 1)
    } else {
        text.subrange(start, end)
    }
}

/// Some line of `text` is a numeral of `number`.
pub open spec fn lists_number(text: Seq<char>, number: u32) -> bool {
    exists|start: int, end: int| #[trigger]
        is_line(text, start, end) && parsed_u32(line_content(text, start, end)) == Some(number)
}

/// Whether some line of `text` is a numeral of `number`.
pub fn has_number_line(text: &Vec<char>, number: u32) -> (listed: bool)
    ensures
        listed == lists_number(text@, number),
{
    let n: usize = text.len();
    let mut start: usize = 0;
    let mut i: usize = 0;
    while i < n
        invariant
            n == text.len(),
            start <= i <= n,
            start == 0 || text@[start - 1] == '\n',
            forall|k: int| start <= k < i ==> text@[k] != '\n',
            forall|s: int, e: int| #[trigger]
                is_line(text@, s, e) && e < start ==> parsed_u32(line_content(text@, s, e)) != Some(
                    number,
                ),
        decreases n - i,
    {
        if text[i] == '\n' {
            let stop: usize = if start < i && text[i - 1] == '\r' { i - 1 } else { i };
            let line = slice_chars(text, start, stop);
            assert(is_line(text@, start as int, i as int));
            assert(line@ == line_content(text@, start as int, i as int));
            if parse_u32(&line) == Some(number) {
                return true;
            }
            assert forall|s: int, e: int| #[trigger]
                is_line(text@, s, e) && e < i + 1 implies parsed_u32(line_content(text@, s, e))
                != Some(number) by {
                if e >= start {
                    assert(text@[e] == '\n');
                    assert(e == i);
                    if s < start {
                        assert(text@[start - 1] == '\n');
                    } else if s > start {
                        assert(text@[s - 1] == '\n');
                    }
                    assert(s == start);
                }
            }
            start = i + 1;
        }
        i += 1;
    }
    if start < n {
        let line = slice_chars(text, start, n);
        assert(is_line(text@, start as int, n as int));
        assert(line@ == line_content(text@, start as int, n as int));
        let listed = parse_u32(&line) == Some(number);
        proof {
            if !listed {
                assert forall|s: int, e: int| #[trigger]
                    is_line(text@, s, e) implies parsed_u32(line_content(text@, s, e)) != Some(
                    number,
                ) by {
                    if e >= start {
                        if e < n {
                            assert(text@[e] == '\n');
                        }
                        assert(e == n);
                        if s < start {
                            assert(text@[start - 1] == '\n');
                        } else if s > start {
                            assert(text@[s - 1] == '\n');
                        }
                        assert(s == start);
                    }
                }
            }
        }
        listed
    } else {
        proof {
            assert forall|s: int, e: int| #[trigger]
                is_line(text@, s, e) implies parsed_u32(line_content(text@, s, e)) != Some(
                number,
            ) by {
                if e >= start {
                    assert(e == n);
                    assert(s < n);
                    assert(text@[start - 1] == '\n');
                }
            }
        }
        false
    }
}

} // verus!
