//! Decimal text: how identifiers and timestamps are written into messages and
//! read back from stored records.

use crate::trusted::push_char;
use vstd::prelude::*;
use vstd::string::StringExecFns;

verus! {

/// The character that stands for the digit `d`, for `d` below ten.
pub open spec fn digit_char(d: nat) -> char {
    if d == 0 {
        '0'
    } else if d == 1 {
        '1'
    } else if d == 2 {
        '2'
    } else if d == 3 {
        '3'
    } else if d == 4 {
        '4'
    } else if d == 5 {
        '5'
    } else if d == 6 {
        '6'
    } else if d == 7 {
        '7'
    } else if d == 8 {
        '8'
    } else {
        '9'
    }
}

/// The decimal digits of `n`, most significant first, without leading zeros.
pub open spec fn decimal_digits(n: nat) -> Seq<char>
    decreases n,
{
    if n < 10 {
        seq![digit_char(n)]
    } else {
        decimal_digits(n / 10).push(digit_char(n % 10))
    }
}

/// The decimal text of an integer: a minus sign for a negative one, then its digits.
pub open spec fn decimal(i: int) -> Seq<char> {
    if i < 0 {
        seq!['-'] + decimal_digits((-i) as nat)
    } else {
        decimal_digits(i as nat)
    }
}

fn digit_text(d: u64) -> (t: &'static str)
    requires
        d < 10,
    ensures
        t@ == seq![digit_char(d as nat)],
{
    proof {
        reveal_strlit("0");
        reveal_strlit("1");
        reveal_strlit("2");
        reveal_strlit("3");
        reveal_strlit("4");
        reveal_strlit("5");
        reveal_strlit("6");
        reveal_strlit("7");
        reveal_strlit("8");
        reveal_strlit("9");
    }
    let t = if d == 0 {
        "0"
    } else if d == 1 {
        "1"
    } else if d == 2 {
        "2"
    } else if d == 3 {
        "3"
    } else if d == 4 {
        "4"
    } else if d == 5 {
        "5"
    } else if d == 6 {
        "6"
    } else if d == 7 {
        "7"
    } else if d == 8 {
        "8"
    } else {
        "9"
    };
    assert(t@ =~= seq![digit_char(d as nat)]);
    t
}

/// Appends the decimal digits of `n` to `out`.
pub fn push_u64(out: &mut String, n: u64)
    ensures
        final(out)@ == old(out)@ + decimal_digits(n as nat),
    decreases n,
{
    if n >= 10 {
        push_u64(out, n / 10);
    }
    let d = digit_text(n % 10);
    out.append(d);
    proof {
        if n >= 10 {
            assert(final(out)@ =~= old(out)@ + decimal_digits(n as nat));
        } else {
            assert(final(out)@ =~= old(out)@ + decimal_digits(n as nat));
        }
    }
}

/// Appends the decimal text of `i` to `out`.
pub fn push_i64(out: &mut String, i: i64)
    ensures
        final(out)@ == old(out)@ + decimal(i as int),
{
    if i < 0 {
        proof {
            reveal_strlit("-");
        }
        out.append("-");
        // The magnitude of the least `i64` does not fit an `i64`; it fits a `u64`.
        let magnitude: u64 = if i == i64::MIN {
            9223372036854775808u64
        } else {
            (-i) as u64
        };
        push_u64(out, magnitude);
        assert(final(out)@ =~= old(out)@ + decimal(i as int));
    } else {
        push_u64(out, i as u64);
    }
}

/// Whether `c` is one of the ten decimal digits.
pub open spec fn is_digit(c: char) -> bool {
    48 <= c as u32 <= 57
}

/// The number that a sequence of decimal digits denotes.
pub open spec fn digits_value(digits: Seq<char>) -> nat
    decreases digits.len(),
{
    if digits.len() == 0 {
        0
    } else {
        digits_value(digits.drop_last()) * 10 + (digits.last() as u32 - 48) as nat
    }
}

/// Every character of `text` is a decimal digit.
pub open spec fn all_digits(text: Seq<char>) -> bool {
    forall|i: int| 0 <= i < text.len() ==> is_digit(#[trigger] text[i])
}

/// The identifier that `text` denotes: one or more decimal digits, after an
/// optional plus sign, whose value is not zero and fits 64 bits. Anything
/// else denotes no identifier.
pub open spec fn parse_id_spec(text: Seq<char>) -> Option<u64> {
    let digits = if text.len() > 0 && text[0] == '+' {
        text.drop_first()
    } else {
        text
    };
    if digits.len() > 0 && all_digits(digits) && 0 < digits_value(digits) <= u64::MAX {
        Some(digits_value(digits) as u64)
    } else {
        None
    }
}

/// Longer digit sequences denote larger numbers than their prefixes.
proof fn lemma_digits_value_grows(digits: Seq<char>, upto: int)
    requires
        0 <= upto <= digits.len(),
        all_digits(digits),
    ensures
        digits_value(digits.take(upto)) <= digits_value(digits),
    decreases digits.len() - upto,
{
    if upto == digits.len() {
        assert(digits.take(upto) =~= digits);
    } else {
        lemma_digits_value_grows(digits, upto + 1);
        assert(digits.take(upto + 1).drop_last() =~= digits.take(upto));
        assert(is_digit(digits[upto]));
    }
}

/// The number that `digits` denote, where they are one or more decimal
/// digits and denote no more than `limit`.
pub open spec fn digits_up_to(digits: Seq<char>, limit: nat) -> Option<nat> {
    if digits.len() > 0 && all_digits(digits) && digits_value(digits) <= limit {
        Some(digits_value(digits))
    } else {
        None
    }
}

/// The unsigned number that `text` denotes: decimal digits after an
/// optional plus sign, with a value that fits 64 bits.
pub open spec fn parse_u64_spec(text: Seq<char>) -> Option<u64> {
    let digits = if text.len() > 0 && text[0] == '+' {
        text.drop_first()
    } else {
        text
    };
    match digits_up_to(digits, u64::MAX as nat) {
        Some(value) => Some(value as u64),
        None => None,
    }
}

/// The signed number that `text` denotes: decimal digits after an optional
/// plus or minus sign, with a value that fits 64 bits.
pub open spec fn parse_i64_spec(text: Seq<char>) -> Option<i64> {
    if text.len() > 0 && text[0] == '-' {
        match digits_up_to(text.drop_first(), 0x8000_0000_0000_0000) {
            Some(value) => Some((-(value as int)) as i64),
            None => None,
        }
    } else {
        let digits = if text.len() > 0 && text[0] == '+' {
            text.drop_first()
        } else {
            text
        };
        match digits_up_to(digits, i64::MAX as nat) {
            Some(value) => Some(value as i64),
            None => None,
        }
    }
}

/// An identifier is an unsigned number other than zero.
pub proof fn lemma_id_is_nonzero_u64(text: Seq<char>)
    ensures
        parse_id_spec(text) == match parse_u64_spec(text) {
            Some(value) => if value == 0 {
                None
            } else {
                Some(value)
            },
            None => None,
        },
{
}

/// Reads the digits of `chars` from position `from` to the end.
fn read_digits(chars: &Vec<char>, from: usize, limit: u64) -> (value: Option<u64>)
    requires
        from <= chars@.len(),
    ensures
        match value {
            Some(v) => digits_up_to(chars@.skip(from as int), limit as nat) == Some(v as nat),
            None => digits_up_to(chars@.skip(from as int), limit as nat) is None,
        },
{
    let n = chars.len();
    let ghost digits = chars@.skip(from as int);
    if from == n {
        return None;
    }
    let mut value: u64 = 0;
    let mut i: usize = from;
    assert(digits.take(0) =~= Seq::empty());
    while i < n
        invariant
            from <= i <= n,
            n == chars@.len(),
            digits == chars@.skip(from as int),
            all_digits(digits.take(i - from)),
            value == digits_value(digits.take(i - from)),
            value <= limit,
        decreases n - i,
    {
        let c = chars[i];
        let code = c as u32;
        if code < 48 || code > 57 {
            assert(!is_digit(digits[i - from]));
            return None;
        }
        let d = (code - 48) as u64;
        assert(digits.take(i - from + 1).drop_last() =~= digits.take(i - from));
        assert(digits.take(i - from + 1).last() == c);
        assert forall|k: int| 0 <= k < i - from + 1 implies is_digit(
            #[trigger] digits.take(i - from + 1)[k],
        ) by {
            if k < i - from {
                assert(digits.take(i - from)[k] == digits[k]);
            }
        }
        if d > limit || value > (limit - d) / 10 {
            proof {
                let longer = digits.take(i - from + 1);
                assert(digits_value(longer) > limit);
                if all_digits(digits) {
                    lemma_digits_value_grows(digits, i - from + 1);
                }
            }
            return None;
        }
        value = value * 10 + d;
        i += 1;
    }
    assert(digits.take(n - from) =~= digits);
    Some(value)
}

fn after_plus(chars: &Vec<char>) -> (from: usize)
    ensures
        from <= chars@.len(),
        chars@.skip(from as int) == if chars@.len() > 0 && chars@[0] == '+' {
            chars@.drop_first()
        } else {
            chars@
        },
{
    if chars.len() > 0 && chars[0] == '+' {
        assert(chars@.skip(1) =~= chars@.drop_first());
        1
    } else {
        assert(chars@.skip(0) =~= chars@);
        0
    }
}

/// Reads an unsigned number from its decimal text, as [`parse_u64_spec`] says.
pub fn parse_u64(text: &str) -> (value: Option<u64>)
    ensures
        value == parse_u64_spec(text@),
{
    let chars = chars_of(text);
    let from = after_plus(&chars);
    read_digits(&chars, from, u64::MAX)
}

/// Reads a signed number from its decimal text, as [`parse_i64_spec`] says.
pub fn parse_i64(text: &str) -> (value: Option<i64>)
    ensures
        value == parse_i64_spec(text@),
{
    let chars = chars_of(text);
    if chars.len() > 0 && chars[0] == '-' {
        assert(chars@.skip(1) =~= chars@.drop_first());
        match read_digits(&chars, 1, 0x8000_0000_0000_0000) {
            Some(magnitude) => {
                if magnitude == 0x8000_0000_0000_0000 {
                    Some(i64::MIN)
                } else {
                    Some(-(magnitude as i64))
                }
            },
            None => None,
        }
    } else {
        let from = after_plus(&chars);
        match read_digits(&chars, from, 0x7fff_ffff_ffff_ffff) {
            Some(value) => Some(value as i64),
            None => None,
        }
    }
}

/// Reads an identifier from its decimal text, as [`parse_id_spec`] says.
pub fn parse_id(text: &str) -> (id: Option<u64>)
    ensures
        id == parse_id_spec(text@),
{
    match parse_u64(text) {
        Some(value) => {
            if value == 0 {
                None
            } else {
                Some(value)
            }
        },
        None => None,
    }
}

/// Whether `c` occurs in `text`.
pub fn contains_char(text: &str, c: char) -> (found: bool)
    ensures
        found == text@.contains(c),
{
    let chars = chars_of(text);
    let mut i: usize = 0;
    while i < chars.len()
        invariant
            i <= chars@.len(),
            chars@ == text@,
            forall|k: int| 0 <= k < i ==> chars@[k] != c,
        decreases chars@.len() - i,
    {
        if chars[i] == c {
            assert(text@[i as int] == c);
            return true;
        }
        i += 1;
    }
    false
}

/// `text` without the characters equal to `c`.
pub open spec fn without(text: Seq<char>, c: char) -> Seq<char> {
    text.filter(|other: char| other != c)
}

/// Removes every `c` from `text`.
pub fn remove_char(text: &str, c: char) -> (kept: String)
    ensures
        kept@ == without(text@, c),
{
    let chars = chars_of(text);
    let mut kept = String::new();
    let mut i: usize = 0;
    assert(chars@.take(0) =~= Seq::empty());
    proof {
        reveal(Seq::filter);
    }
    while i < chars.len()
        invariant
            i <= chars@.len(),
            kept@ == without(chars@.take(i as int), c),
        decreases chars@.len() - i,
    {
        assert(chars@.take(i as int + 1).drop_last() =~= chars@.take(i as int));
        proof {
            reveal(Seq::filter);
        }
        if chars[i] != c {
            push_char(&mut kept, chars[i]);
        }
        i += 1;
    }
    assert(chars@.take(i as int) =~= chars@);
    kept
}

/// The characters of `text`, one by one.
pub fn chars_of(text: &str) -> (chars: Vec<char>)
    ensures
        chars@ == text@,
{
    let mut chars: Vec<char> = Vec::new();
    for c in it: text.chars()
        invariant
            it.seq() == text@,
            chars@ == it.seq().take(it.index() as int),
    {
        chars.push(c);
        assert(it.seq().take(it.index() + 1) =~= it.seq().take(it.index() as int).push(c));
    }
    assert(text@.take(text@.len() as int) =~= text@);
    chars
}

/// Whether `pattern` stands in `text` at position `at`.
pub open spec fn occurs_at(text: Seq<char>, pattern: Seq<char>, at: int) -> bool {
    0 <= at && at + pattern.len() <= text.len() && text.subrange(at, at + pattern.len())
        == pattern
}

/// The first position at or after `from` at which `pattern` stands in
/// `text`, or a position behind the text where it stands nowhere.
pub open spec fn first_occurrence(text: Seq<char>, pattern: Seq<char>, from: int) -> int
    decreases text.len() + 1 - from,
{
    if from < 0 || from + pattern.len() > text.len() {
        text.len() as int + 1
    } else if occurs_at(text, pattern, from) {
        from
    } else {
        first_occurrence(text, pattern, from + 1)
    }
}

/// `text` with the first occurrence of `pattern` replaced by `with`;
/// `text` itself where `pattern` does not occur.
pub open spec fn replace_first(text: Seq<char>, pattern: Seq<char>, with: Seq<char>) -> Seq<char> {
    let at = first_occurrence(text, pattern, 0);
    if at <= text.len() {
        text.take(at) + with + text.skip(at + pattern.len())
    } else {
        text
    }
}

fn stands_at(text: &Vec<char>, pattern: &Vec<char>, at: usize) -> (answer: bool)
    requires
        at + pattern@.len() <= text@.len(),
    ensures
        answer == occurs_at(text@, pattern@, at as int),
{
    let mut k: usize = 0;
    let n = text.len();
    while k < pattern.len()
        invariant
            k <= pattern@.len(),
            n == text@.len(),
            at + pattern@.len() <= text@.len(),
            forall|j: int| 0 <= j < k ==> text@[at + j] == pattern@[j],
        decreases pattern@.len() - k,
    {
        if text[at + k] != pattern[k] {
            assert(text@.subrange(at as int, at + pattern@.len())[k as int] != pattern@[k as int]);
            return false;
        }
        k += 1;
    }
    assert(text@.subrange(at as int, at + pattern@.len()) =~= pattern@);
    true
}

/// Appends the characters of `chars` from `from` up to `to` to `out`.
pub fn push_chars(out: &mut String, chars: &Vec<char>, from: usize, to: usize)
    requires
        from <= to <= chars@.len(),
    ensures
        final(out)@ == old(out)@ + chars@.subrange(from as int, to as int),
{
    let mut i: usize = from;
    assert(chars@.subrange(from as int, from as int) =~= Seq::empty());
    assert(out@ =~= old(out)@ + chars@.subrange(from as int, from as int));
    while i < to
        invariant
            from <= i <= to <= chars@.len(),
            out@ == old(out)@ + chars@.subrange(from as int, i as int),
        decreases to - i,
    {
        push_char(out, chars[i]);
        assert(chars@.subrange(from as int, i + 1) =~= chars@.subrange(from as int, i as int).push(
            chars@[i as int],
        ));
        assert(out@ =~= old(out)@ + chars@.subrange(from as int, i + 1));
        i += 1;
    }
}

/// Replaces the first occurrence of `pattern` in `text` by `with`.
pub fn replace_once(text: &str, pattern: &str, with: &str) -> (replaced: String)
    ensures
        replaced@ == replace_first(text@, pattern@, with@),
{
    let chars = chars_of(text);
    let wanted = chars_of(pattern);
    let n = chars.len();
    let m = wanted.len();
    if m > n {
        return String::from_str(text);
    }
    let last = n - m;
    let mut at: usize = 0;
    let mut searching = true;
    while searching
        invariant
            n == chars@.len(),
            m == wanted@.len(),
            chars@ == text@,
            wanted@ == pattern@,
            last == n - m,
            at <= last,
            first_occurrence(chars@, wanted@, 0) == first_occurrence(chars@, wanted@, at as int),
            !searching ==> first_occurrence(chars@, wanted@, at as int) == n + 1,
        decreases last - at + if searching { 1int } else { 0int },
    {
        if stands_at(&chars, &wanted, at) {
            let mut out = String::new();
            push_chars(&mut out, &chars, 0, at);
            out.append(with);
            push_chars(&mut out, &chars, at + m, n);
            assert(chars@.subrange(0, at as int) =~= chars@.take(at as int));
            assert(chars@.subrange(at + m, n as int) =~= chars@.skip(at + m));
            assert(out@ =~= chars@.take(at as int) + with@ + chars@.skip(at + m));
            return out;
        }
        if at == last {
            assert(first_occurrence(chars@, wanted@, at + 1) == n + 1);
            searching = false;
        } else {
            at += 1;
        }
    }
    String::from_str(text)
}

} // verus!
