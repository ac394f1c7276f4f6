//! Decimal integers and other small pieces of text that commands are made of.

use vstd::prelude::*;
use vstd::string::*;

verus! {

/// `String::push` appends the character to the end of the string.
pub assume_specification[ String::push ](s: &mut String, ch: char)
    ensures
        final(s)@ == old(s)@.push(ch),
;

/// The character that stands for the decimal digit `d`.
pub open spec fn digit_char(d: int) -> char {
    (48 + d) as char
}

/// Whether `c` is one of the ten decimal digits.
pub open spec fn is_digit(c: char) -> bool {
    '0' <= c <= '9'
}

/// The number that the decimal digit `c` stands for.
pub open spec fn digit_value(c: char) -> int {
    c as int - 48
}

/// The digits of `n` in base ten, most significant first, without leading zeros.
pub open spec fn decimal_digits(n: nat) -> Seq<char>
    decreases n,
{
    if n < 10 {
        seq![digit_char(n as int)]
    } else {
        decimal_digits(n / 10).push(digit_char((n % 10) as int))
    }
}

/// The decimal text of `n`: a minus sign where it is negative, then its digits.
pub open spec fn decimal_text(n: int) -> Seq<char> {
    if n < 0 {
        seq!['-'] + decimal_digits((-n) as nat)
    } else {
        decimal_digits(n as nat)
    }
}

/// The number that a run of decimal digits stands for.
pub open spec fn digits_value(s: Seq<char>) -> nat
    decreases s.len(),
{
    if s.len() == 0 {
        0
    } else {
        (digits_value(s.drop_last()) * 10 + digit_value(s.last())) as nat
    }
}

/// Whether every character of `s` is a decimal digit.
pub open spec fn all_digits(s: Seq<char>) -> bool {
    forall|i: int| 0 <= i < s.len() ==> is_digit(#[trigger] s[i])
}

/// What `s` means as a decimal integer between `lo` and `hi`: an optional sign
/// (a minus only where `signed`), then at least one digit and nothing else.
pub open spec fn parsed_integer(s: Seq<char>, signed: bool, lo: int, hi: int) -> Option<int> {
    let negative = signed && s.len() > 0 && s[0] == '-';
    let body = if s.len() > 0 && (s[0] == '+' || negative) {
        s.skip(1)
    } else {
        s
    };
    let value = if negative {
        -(digits_value(body) as int)
    } else {
        digits_value(body) as int
    };
    if body.len() > 0 && all_digits(body) && lo <= value <= hi {
        Some(value)
    } else {
        None
    }
}

/// What `s` means as an index: a decimal integer that fits in `usize`.
pub open spec fn parsed_index(s: Seq<char>) -> Option<usize> {
    match parsed_integer(s, false, 0, usize::MAX as int) {
        Some(value) => Some(value as usize),
        None => None,
    }
}

/// Whether `c` is white space as Unicode defines it.
pub open spec fn is_white_space(c: char) -> bool {
    let n = c as int;
    (0x09 <= n <= 0x0d) || n == 0x20 || n == 0x85 || n == 0xa0 || n == 0x1680
        || (0x2000 <= n <= 0x200a) || n == 0x2028 || n == 0x2029 || n == 0x202f
        || n == 0x205f || n == 0x3000
}

/// A longer run of digits stands for a number at least as large as any of its beginnings.
pub proof fn lemma_digits_value_grows(s: Seq<char>, k: int)
    requires
        0 <= k <= s.len(),
        all_digits(s),
    ensures
        digits_value(s.take(k)) <= digits_value(s),
    decreases s.len(),
{
    if k == s.len() {
        assert(s.take(k) =~= s);
    } else {
        lemma_digits_value_grows(s.drop_last(), k);
        assert(s.drop_last().take(k) =~= s.take(k));
        assert(is_digit(s[s.len() - 1]));
    }
}

/// The characters of `text`, in order.
pub fn chars_of(text: &str) -> (chars: Vec<char>)
    ensures
        chars@ == text@,
{
    let mut chars: Vec<char> = Vec::new();
    for c in it: text.chars()
        invariant
            chars@ == it.seq().take(it.index@),
            it.seq() == text@,
    {
        chars.push(c);
    }
    chars
}

/// Whether `text` reads `literal`.
pub fn text_is(text: &String, literal: &str) -> (r: bool)
    ensures
        r == (text@ == literal@),
{
    let other = literal.to_owned();
    *text == other
}

/// Tells white space from other characters.
pub fn is_space(c: char) -> (r: bool)
    ensures
        r == is_white_space(c),
{
    let n: u32 = c as u32;
    (0x09 <= n && n <= 0x0d) || n == 0x20 || n == 0x85 || n == 0xa0 || n == 0x1680
        || (0x2000 <= n && n <= 0x200a) || n == 0x2028 || n == 0x2029 || n == 0x202f
        || n == 0x205f || n == 0x3000
}

/// Writes `value` in decimal.
pub fn format_integer(value: i128) -> (text: String)
    ensures
        text@ == decimal_text(value as int),
{
    let negative = value < 0;
    let magnitude: u128 = if negative {
        ((-(value + 1)) as u128) + 1
    } else {
        value as u128
    };
    let mut low: Vec<char> = Vec::new();
    let mut rest: u128 = magnitude;
    while rest >= 10
        invariant
            decimal_digits(magnitude as nat) == decimal_digits(rest as nat) + low@.reverse(),
        decreases rest,
    {
        let d: u8 = (rest % 10) as u8;
        let ghost before = low@;
        low.push((48u8 + d) as char);
        proof {
            assert(low@.reverse() =~= seq![digit_char(d as int)] + before.reverse());
            assert(decimal_digits(rest as nat) == decimal_digits((rest / 10) as nat).push(
                digit_char(d as int),
            ));
            assert(decimal_digits((rest / 10) as nat).push(digit_char(d as int))
                + before.reverse() =~= decimal_digits((rest / 10) as nat) + low@.reverse());
        }
        rest = rest / 10;
    }
    let mut text = String::new();
    if negative {
        text.push('-');
    }
    let first: u8 = rest as u8;
    text.push((48u8 + first) as char);
    let ghost head = text@;
    let mut i: usize = low.len();
    while i > 0
        invariant
            i <= low.len(),
            text@ == head + low@.reverse().take(low.len() - i),
        decreases i,
    {
        i -= 1;
        text.push(low[i]);
        assert(low@.reverse().take(low.len() - i) =~= low@.reverse().take(low.len() - i - 1).push(
            low@[i as int],
        ));
    }
    assert(low@.reverse().take(low.len() as int) =~= low@.reverse());
    assert(decimal_digits(rest as nat) =~= seq![digit_char(first as int)]);
    text
}

/// Reads `text` as a decimal integer between `lo` and `hi`.
pub fn parse_integer(text: &str, signed: bool, lo: i128, hi: i128) -> (value: Option<i128>)
    requires
        -(u64::MAX as int) <= lo <= 0 <= hi <= u64::MAX as int,
    ensures
        match value {
            Some(v) => parsed_integer(text@, signed, lo as int, hi as int) == Some(v as int),
            None => parsed_integer(text@, signed, lo as int, hi as int) is None,
        },
{
    let chars = chars_of(text);
    let n = chars.len();
    let negative = signed && n > 0 && chars[0] == '-';
    let start: usize = if n > 0 && (chars[0] == '+' || negative) {
        1
    } else {
        0
    };
    let ghost body = text@.skip(start as int);
    assert(text@.skip(0) =~= text@);
    if start >= n {
        return None;
    }
    let limit: i128 = if -lo > hi {
        -lo
    } else {
        hi
    };
    let mut total: i128 = 0;
    let mut i: usize = start;
    while i < n
        invariant
            start <= i <= n,
            n == chars@.len(),
            chars@ == text@,
            body == text@.skip(start as int),
            start == 0 ==> body == text@,
            negative == (signed && text@.len() > 0 && text@[0] == '-'),
            start == if text@.len() > 0 && (text@[0] == '+' || negative) { 1int } else { 0int },
            all_digits(body.take(i - start)),
            total == digits_value(body.take(i - start)),
            0 <= total <= limit,
            limit <= u64::MAX,
            hi <= limit,
            -lo <= limit,
        decreases n - i,
    {
        let c = chars[i];
        if !('0' <= c && c <= '9') {
            assert(!is_digit(body[i - start]));
            return None;
        }
        let d: i128 = (c as u32 - 48) as i128;
        proof {
            assert(body.take(i - start + 1).drop_last() =~= body.take(i - start));
            assert(body.take(i - start + 1).last() == c);
            assert(all_digits(body.take(i - start + 1)));
        }
        total = total * 10 + d;
        assert(total == digits_value(body.take(i - start + 1)));
        if total > limit {
            proof {
                if all_digits(body) {
                    lemma_digits_value_grows(body, i - start + 1);
                }
            }
            return None;
        }
        i += 1;
    }
    assert(body.take(i - start) =~= body);
    let value: i128 = if negative {
        -total
    } else {
        total
    };
    if lo <= value && value <= hi {
        Some(value)
    } else {
        None
    }
}

/// Reads `text` as an index.
pub fn parse_index(text: &str) -> (index: Option<usize>)
    ensures
        index == parsed_index(text@),
{
    match parse_integer(text, false, 0, usize::MAX as i128) {
        Some(v) => Some(v as usize),
        None => None,
    }
}

/// The characters of each text of `texts`.
pub open spec fn texts_view(texts: Seq<String>) -> Seq<Seq<char>> {
    texts.map_values(|t: String| t@)
}

/// The words from `from` on, with `separator` between each two.
pub open spec fn joined(words: Seq<Seq<char>>, from: int, separator: Seq<char>) -> Seq<char>
    decreases words.len() - from,
{
    if from >= words.len() {
        Seq::empty()
    } else if from + 1 == words.len() {
        words[from]
    } else {
        words[from] + separator + joined(words, from + 1, separator)
    }
}

/// The words from `from` on, with `separator` between each two.
pub fn join_from(words: &Vec<String>, from: usize, separator: &str) -> (text: String)
    ensures
        text@ == joined(texts_view(words@), from as int, separator@),
{
    let n = words.len();
    let mut text = String::new();
    if from >= n {
        return text;
    }
    let mut k: usize = n - 1;
    text.append(words[k].as_str());
    assert(text@ =~= words@[k as int]@);
    while k > from
        invariant
            from <= k < n,
            n == words.len(),
            text@ == joined(texts_view(words@), k as int, separator@),
        decreases k,
    {
        k -= 1;
        let mut longer = words[k].clone();
        longer.append(separator);
        longer.append(text.as_str());
        text = longer;
    }
    text
}

/// Whether `a` comes before `b` in the order of strings: at the first
/// position where they differ `a` has the lesser character, or `a` ends there
/// and `b` does not.
pub open spec fn text_before(a: Seq<char>, b: Seq<char>) -> bool
    decreases a.len(),
{
    if b.len() == 0 {
        false
    } else if a.len() == 0 {
        true
    } else if a[0] != b[0] {
        (a[0] as int) < (b[0] as int)
    } else {
        text_before(a.skip(1), b.skip(1))
    }
}

/// Whether each of `texts` comes before the next.
pub open spec fn ascending(texts: Seq<Seq<char>>) -> bool {
    forall|i: int, j: int| 0 <= i < j < texts.len() ==> text_before(texts[i], texts[j])
}

/// No text comes before itself.
pub proof fn lemma_text_before_irreflexive(a: Seq<char>)
    ensures
        !text_before(a, a),
    decreases a.len(),
{
    if a.len() > 0 {
        lemma_text_before_irreflexive(a.skip(1));
    }
}

/// Of two different texts one comes before the other.
pub proof fn lemma_text_before_total(a: Seq<char>, b: Seq<char>)
    requires
        a != b,
    ensures
        text_before(a, b) || text_before(b, a),
    decreases a.len(),
{
    if a.len() > 0 && b.len() > 0 && a[0] == b[0] {
        if a.skip(1) == b.skip(1) {
            assert(a =~= seq![a[0]] + a.skip(1));
            assert(b =~= seq![b[0]] + b.skip(1));
        }
        lemma_text_before_total(a.skip(1), b.skip(1));
    } else if a.len() == 0 && b.len() == 0 {
        assert(a =~= b);
    }
}

/// What comes before a text comes before all that the text comes before.
pub proof fn lemma_text_before_transitive(a: Seq<char>, b: Seq<char>, c: Seq<char>)
    requires
        text_before(a, b),
        text_before(b, c),
    ensures
        text_before(a, c),
    decreases a.len(),
{
    if a.len() > 0 && b.len() > 0 && c.len() > 0 && a[0] == b[0] && b[0] == c[0] {
        lemma_text_before_transitive(a.skip(1), b.skip(1), c.skip(1));
    }
}

/// Tells whether `a` comes before `b` in the order of strings.
pub fn text_less(a: &str, b: &str) -> (less: bool)
    ensures
        less == text_before(a@, b@),
{
    let x = chars_of(a);
    let y = chars_of(b);
    let mut i: usize = 0;
    assert(x@.skip(0) =~= x@ && y@.skip(0) =~= y@);
    while i < x.len() && i < y.len()
        invariant
            i <= x.len(),
            i <= y.len(),
            x@ == a@,
            y@ == b@,
            text_before(a@, b@) == text_before(x@.skip(i as int), y@.skip(i as int)),
        decreases x.len() - i,
    {
        let c = x[i];
        let d = y[i];
        assert(x@.skip(i as int)[0] == c && y@.skip(i as int)[0] == d);
        if c != d {
            return c < d;
        }
        assert(x@.skip(i as int).skip(1) =~= x@.skip(i + 1));
        assert(y@.skip(i as int).skip(1) =~= y@.skip(i + 1));
        i += 1;
    }
    i < y.len()
}

} // verus!
