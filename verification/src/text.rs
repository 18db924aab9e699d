//! Text primitives over characters.
//!
//! Strings are modelled as sequences of `char`. The spec functions say what a
//! piece of text is; the executable functions next to them compute it.

use vstd::prelude::*;

verus! {

/// `String::push` puts one character behind the ones already there.
pub assume_specification[ String::push ](s: &mut String, c: char)
    ensures
        final(s)@ == old(s)@.push(c),
;

/// The characters of `s`.
pub fn to_chars(s: &str) -> (r: Vec<char>)
    ensures
        r@ == s@,
{
    let mut r: Vec<char> = Vec::new();
    for c in it: s.chars()
        invariant
            it.seq() == s@,
            r@ == s@.take(it.index() as int),
    {
        r.push(c);
    }
    r
}

/// The string made of the characters `from..to` of `chars`.
pub fn from_chars(chars: &Vec<char>, from: usize, to: usize) -> (r: String)
    requires
        from <= to <= chars@.len(),
    ensures
        r@ == chars@.subrange(from as int, to as int),
{
    let mut r = String::new();
    let mut i: usize = from;
    while i < to
        invariant
            from <= i <= to <= chars@.len(),
            r@ == chars@.subrange(from as int, i as int),
        decreases to - i,
    {
        r.push(chars[i]);
        i += 1;
    }
    r
}

/// Whether two pieces of text are the same.
pub fn same_text(a: &str, b: &str) -> (r: bool)
    ensures
        r == (a@ == b@),
{
    a.to_owned() == b.to_owned()
}

/// The views of a list of strings.
pub open spec fn texts(list: Seq<String>) -> Seq<Seq<char>> {
    list.map_values(|s: String| s@)
}

/// The view of an optional string.
pub open spec fn text_of(s: Option<String>) -> Option<Seq<char>> {
    match s {
        Some(s) => Some(s@),
        None => None,
    }
}

/// Whether `pattern` stands in `s` at position `at`.
pub open spec fn occurs_at(s: Seq<char>, pattern: Seq<char>, at: int) -> bool {
    &&& 0 <= at
    &&& at + pattern.len() <= s.len()
    &&& s.subrange(at, at + pattern.len()) == pattern
}

/// Whether `pattern` stands somewhere in `s`.
pub open spec fn contains(s: Seq<char>, pattern: Seq<char>) -> bool {
    exists|at: int| occurs_at(s, pattern, at)
}

/// Whether `at` is the first position at which `pattern` stands in `s`.
pub open spec fn first_occurs_at(s: Seq<char>, pattern: Seq<char>, at: int) -> bool {
    &&& occurs_at(s, pattern, at)
    &&& forall|earlier: int| earlier < at ==> !occurs_at(s, pattern, earlier)
}

/// What follows the first occurrence of `pattern` in `s`, if there is one.
pub open spec fn after_first(s: Seq<char>, pattern: Seq<char>) -> Option<Seq<char>> {
    if contains(s, pattern) {
        let at = choose|at: int| first_occurs_at(s, pattern, at);
        Some(s.skip(at + pattern.len()))
    } else {
        None
    }
}

/// Where an occurrence has been found first, the text after it is known.
pub proof fn lemma_after_first(s: Seq<char>, pattern: Seq<char>, at: int)
    requires
        first_occurs_at(s, pattern, at),
    ensures
        after_first(s, pattern) == Some(s.skip(at + pattern.len())),
{
    let chosen = choose|i: int| first_occurs_at(s, pattern, i);
    assert(first_occurs_at(s, pattern, chosen));
    assert(chosen == at);
}

/// The first position of `pattern` in `chars`.
pub fn find(chars: &Vec<char>, pattern: &Vec<char>) -> (r: Option<usize>)
    ensures
        match r {
            Some(at) => first_occurs_at(chars@, pattern@, at as int),
            None => !contains(chars@, pattern@),
        },
{
    if pattern.len() > chars.len() {
        return None;
    }
    let last: usize = chars.len() - pattern.len();
    let mut at: usize = 0;
    while at <= last
        invariant
            last == chars@.len() - pattern@.len(),
            chars@.len() <= usize::MAX,
            at <= last + 1,
            forall|earlier: int| earlier < at ==> !occurs_at(chars@, pattern@, earlier),
        decreases last + 1 - at,
    {
        let mut matched: usize = 0;
        while matched < pattern.len() && chars[at + matched] == pattern[matched]
            invariant
                at <= last,
                last == chars@.len() - pattern@.len(),
                chars@.len() <= usize::MAX,
                matched <= pattern@.len(),
                forall|k: int| 0 <= k < matched ==> chars@[at + k] == pattern@[k],
            decreases pattern@.len() - matched,
        {
            matched += 1;
        }
        if matched == pattern.len() {
            assert(chars@.subrange(at as int, at + pattern@.len()) =~= pattern@);
            return Some(at);
        }
        assert(!occurs_at(chars@, pattern@, at as int)) by {
            if occurs_at(chars@, pattern@, at as int) {
                assert(chars@.subrange(at as int, at + pattern@.len())[matched as int]
                    == pattern@[matched as int]);
            }
        }
        if at == last {
            return None;
        }
        at += 1;
    }
    None
}

/// Whether `pattern` stands somewhere in `s`.
pub fn contains_text(s: &str, pattern: &str) -> (r: bool)
    ensures
        r == contains(s@, pattern@),
{
    match find(&to_chars(s), &to_chars(pattern)) {
        Some(_) => true,
        None => false,
    }
}

/// The white space characters of Unicode.
pub open spec fn is_space(c: char) -> bool {
    ||| '\u{9}' <= c <= '\u{d}'
    ||| c == ' '
    ||| c == '\u{85}'
    ||| c == '\u{a0}'
    ||| c == '\u{1680}'
    ||| '\u{2000}' <= c <= '\u{200a}'
    ||| c == '\u{2028}'
    ||| c == '\u{2029}'
    ||| c == '\u{202f}'
    ||| c == '\u{205f}'
    ||| c == '\u{3000}'
}

fn space(c: char) -> (r: bool)
    ensures
        r == is_space(c),
{
    ('\u{9}' <= c && c <= '\u{d}') || c == ' ' || c == '\u{85}' || c == '\u{a0}' || c == '\u{1680}'
        || ('\u{2000}' <= c && c <= '\u{200a}') || c == '\u{2028}' || c == '\u{2029}' || c
        == '\u{202f}' || c == '\u{205f}' || c == '\u{3000}'
}

/// `s` without the white space at its start.
pub open spec fn trim_start(s: Seq<char>) -> Seq<char>
    decreases s.len(),
{
    if s.len() > 0 && is_space(s[0]) {
        trim_start(s.drop_first())
    } else {
        s
    }
}

/// `s` without the white space at its end.
pub open spec fn trim_end(s: Seq<char>) -> Seq<char>
    decreases s.len(),
{
    if s.len() > 0 && is_space(s.last()) {
        trim_end(s.drop_last())
    } else {
        s
    }
}

/// `s` without the white space at both ends.
pub open spec fn trim(s: Seq<char>) -> Seq<char> {
    trim_end(trim_start(s))
}

/// `s` without the white space at both ends.
pub fn trimmed(s: &str) -> (r: String)
    ensures
        r@ == trim(s@),
{
    let chars = to_chars(s);
    let mut from: usize = 0;
    assert(chars@.skip(0) =~= chars@);
    while from < chars.len() && space(chars[from])
        invariant
            from <= chars@.len(),
            trim_start(chars@.skip(from as int)) == trim_start(chars@),
        decreases chars@.len() - from,
    {
        assert(chars@.skip(from as int).drop_first() =~= chars@.skip(from + 1));
        from += 1;
    }
    let mut to: usize = chars.len();
    assert(chars@.subrange(from as int, to as int) =~= chars@.skip(from as int));
    while from < to && space(chars[to - 1])
        invariant
            from <= to <= chars@.len(),
            trim_end(chars@.subrange(from as int, to as int)) == trim(chars@),
        decreases to,
    {
        assert(chars@.subrange(from as int, to as int).drop_last() =~= chars@.subrange(
            from as int,
            to - 1,
        ));
        to -= 1;
    }
    from_chars(&chars, from, to)
}

/// `s` without the `c` characters at its end.
pub open spec fn trim_end_char(s: Seq<char>, c: char) -> Seq<char>
    decreases s.len(),
{
    if s.len() > 0 && s.last() == c {
        trim_end_char(s.drop_last(), c)
    } else {
        s
    }
}

/// The characters `from..` of `chars` without the `c` characters at their end.
pub fn tail_without(chars: &Vec<char>, from: usize, c: char) -> (r: String)
    requires
        from <= chars@.len(),
    ensures
        r@ == trim_end_char(chars@.skip(from as int), c),
{
    let mut to: usize = chars.len();
    assert(chars@.subrange(from as int, to as int) =~= chars@.skip(from as int));
    while from < to && chars[to - 1] == c
        invariant
            from <= to <= chars@.len(),
            trim_end_char(chars@.subrange(from as int, to as int), c) == trim_end_char(
                chars@.skip(from as int),
                c,
            ),
        decreases to,
    {
        assert(chars@.subrange(from as int, to as int).drop_last() =~= chars@.subrange(
            from as int,
            to - 1,
        ));
        to -= 1;
    }
    from_chars(&chars, from, to)
}

/// An ASCII capital letter in its small form; any other character as it is.
pub open spec fn lower_char(c: char) -> char {
    if 'A' <= c <= 'Z' {
        ((c as u8) + 32) as char
    } else {
        c
    }
}

/// `s` with ASCII capital letters made small.
pub open spec fn lower(s: Seq<char>) -> Seq<char> {
    s.map_values(|c: char| lower_char(c))
}

/// `s` with ASCII capital letters made small.
pub fn lowered(s: &str) -> (r: String)
    ensures
        r@ == lower(s@),
{
    let mut r = String::new();
    let chars = to_chars(s);
    let mut i: usize = 0;
    while i < chars.len()
        invariant
            i <= chars@.len(),
            r@ == lower(chars@.take(i as int)),
        decreases chars@.len() - i,
    {
        let c: char = chars[i];
        if 'A' <= c && c <= 'Z' {
            r.push(((c as u8) + 32u8) as char);
        } else {
            r.push(c);
        }
        i += 1;
        assert(chars@.take(i as int).drop_last() =~= chars@.take(i - 1));
        assert(r@ =~= lower(chars@.take(i as int)));
    }
    assert(chars@.take(i as int) =~= chars@);
    r
}

/// `s` with every `c` replaced by `by`.
pub open spec fn replace_char(s: Seq<char>, c: char, by: Seq<char>) -> Seq<char>
    decreases s.len(),
{
    if s.len() == 0 {
        Seq::empty()
    } else {
        replace_char(s.drop_last(), c, by) + (if s.last() == c {
            by
        } else {
            seq![s.last()]
        })
    }
}

/// Replacing goes part by part.
pub proof fn lemma_replace_char_concat(a: Seq<char>, b: Seq<char>, c: char, by: Seq<char>)
    ensures
        replace_char(a + b, c, by) == replace_char(a, c, by) + replace_char(b, c, by),
    decreases b.len(),
{
    if b.len() == 0 {
        assert(a + b =~= a);
        assert(replace_char(a, c, by) + replace_char(b, c, by) =~= replace_char(a, c, by));
    } else {
        assert((a + b).drop_last() =~= a + b.drop_last());
        lemma_replace_char_concat(a, b.drop_last(), c, by);
        assert(replace_char(a + b, c, by) =~= replace_char(a, c, by) + replace_char(b, c, by));
    }
}

/// Replacing the first character, then the rest.
pub proof fn lemma_replace_char_first(s: Seq<char>, c: char, by: Seq<char>)
    requires
        s.len() > 0,
    ensures
        replace_char(s, c, by) == (if s[0] == c {
            by
        } else {
            seq![s[0]]
        }) + replace_char(s.drop_first(), c, by),
{
    let head = seq![s[0]];
    assert(s =~= head + s.drop_first());
    lemma_replace_char_concat(head, s.drop_first(), c, by);
    assert(head.drop_last() =~= Seq::<char>::empty());
    assert(replace_char(Seq::<char>::empty(), c, by) =~= Seq::<char>::empty());
    assert(replace_char(head, c, by) =~= (if s[0] == c {
        by
    } else {
        head
    }));
}

/// Text without `c` stays as it is.
pub proof fn lemma_replace_char_absent(s: Seq<char>, c: char, by: Seq<char>)
    requires
        forall|i: int| 0 <= i < s.len() ==> s[i] != c,
    ensures
        replace_char(s, c, by) == s,
    decreases s.len(),
{
    if s.len() > 0 {
        lemma_replace_char_absent(s.drop_last(), c, by);
        assert(s =~= s.drop_last() + seq![s.last()]);
    } else {
        assert(s =~= Seq::<char>::empty());
    }
}

/// `s` with every `c` replaced by `by`.
pub fn replaced(s: &str, c: char, by: &str) -> (r: String)
    ensures
        r@ == replace_char(s@, c, by@),
{
    let chars = to_chars(s);
    let mut r = String::new();
    let mut i: usize = 0;
    while i < chars.len()
        invariant
            i <= chars@.len(),
            r@ == replace_char(chars@.take(i as int), c, by@),
        decreases chars@.len() - i,
    {
        let ghost before = r@;
        if chars[i] == c {
            r.append(by);
        } else {
            r.push(chars[i]);
            assert(r@ =~= before + seq![chars@[i as int]]);
        }
        i += 1;
        assert(chars@.take(i as int).drop_last() =~= chars@.take(i - 1));
    }
    assert(chars@.take(i as int) =~= chars@);
    r
}

/// The decimal digit for `d`.
pub open spec fn digit(d: int) -> char {
    (48 + d) as u8 as char
}

/// `n` in decimal, without leading zeros.
pub open spec fn decimal(n: nat) -> Seq<char>
    decreases n,
{
    if n < 10 {
        seq![digit(n as int)]
    } else {
        decimal(n / 10).push(digit((n % 10) as int))
    }
}

/// `n` in decimal, with a leading minus sign where it is negative.
pub open spec fn signed_decimal(n: int) -> Seq<char> {
    if n < 0 {
        seq!['-'] + decimal((-n) as nat)
    } else {
        decimal(n as nat)
    }
}

fn push_decimal(r: &mut String, n: u64)
    ensures
        final(r)@ == old(r)@ + decimal(n as nat),
    decreases n,
{
    let c: char = (48u8 + (n % 10) as u8) as char;
    if n >= 10 {
        push_decimal(r, n / 10);
    }
    r.push(c);
}

/// `n` in decimal.
pub fn show_u64(n: u64) -> (r: String)
    ensures
        r@ == decimal(n as nat),
{
    let mut r = String::new();
    push_decimal(&mut r, n);
    r
}

/// `n` in decimal.
pub fn show_i64(n: i64) -> (r: String)
    ensures
        r@ == signed_decimal(n as int),
{
    let mut r = String::new();
    if n < 0 {
        r.push('-');
        let size: u64 = (-(n as i128)) as u64;
        push_decimal(&mut r, size);
    } else {
        push_decimal(&mut r, n as u64);
    }
    r
}

/// Whether `c` is a decimal digit.
pub open spec fn is_digit(c: char) -> bool {
    '0' <= c <= '9'
}

/// Whether `s` is one or more decimal digits.
pub open spec fn is_number(s: Seq<char>) -> bool {
    s.len() > 0 && forall|i: int| 0 <= i < s.len() ==> is_digit(#[trigger] s[i])
}

/// The number that the digits of `s` write.
pub open spec fn number(s: Seq<char>) -> nat
    decreases s.len(),
{
    if s.len() == 0 {
        0
    } else {
        10 * number(s.drop_last()) + ((s.last() as int) - 48) as nat
    }
}

/// The number that `s` writes: digits behind an optional sign, where a minus
/// sign counts as one only if `negative` says so.
pub open spec fn parse_integer(s: Seq<char>, negative: bool) -> Option<int> {
    let signed = s.len() > 0 && (s[0] == '+' || (negative && s[0] == '-'));
    let digits = if signed {
        s.drop_first()
    } else {
        s
    };
    if !is_number(digits) {
        None
    } else if signed && s[0] == '-' {
        Some(-(number(digits) as int))
    } else {
        Some(number(digits) as int)
    }
}

/// `value` where it lies between `low` and `high`.
pub open spec fn within(value: Option<int>, low: int, high: int) -> Option<int> {
    match value {
        Some(v) => if low <= v <= high {
            Some(v)
        } else {
            None
        },
        None => None,
    }
}

/// Larger than the size of any `i64`.
const CEILING: u128 = 0x1_0000_0000_0000_0000;

/// The number that the digits `from..` write, or the ceiling where it is larger.
fn capped_number(chars: &Vec<char>, from: usize) -> (r: Option<u128>)
    requires
        from <= chars@.len(),
    ensures
        match r {
            Some(n) => is_number(chars@.skip(from as int)) && n == (if number(
                chars@.skip(from as int),
            ) < CEILING {
                number(chars@.skip(from as int)) as int
            } else {
                CEILING as int
            }),
            None => !is_number(chars@.skip(from as int)),
        },
{
    let ghost digits = chars@.skip(from as int);
    if from == chars.len() {
        return None;
    }
    let mut total: u128 = 0;
    let mut i: usize = from;
    while i < chars.len()
        invariant
            from <= i <= chars@.len(),
            digits == chars@.skip(from as int),
            forall|k: int| 0 <= k < i - from ==> is_digit(#[trigger] digits[k]),
            total == (if number(digits.take(i - from)) < CEILING {
                number(digits.take(i - from)) as int
            } else {
                CEILING as int
            }),
        decreases chars@.len() - i,
    {
        let c: char = chars[i];
        assert(digits[i - from] == c);
        if !('0' <= c && c <= '9') {
            return None;
        }
        let next: u128 = total * 10 + ((c as u8) - 48u8) as u128;
        total = if next < CEILING {
            next
        } else {
            CEILING
        };
        i += 1;
        assert(digits.take(i - from).drop_last() =~= digits.take(i - 1 - from));
    }
    assert(digits.take(i - from) =~= digits);
    Some(total)
}

/// The number below 256 that `s` writes in decimal.
pub fn parse_u8(s: &str) -> (r: Option<u8>)
    ensures
        match r {
            Some(n) => within(parse_integer(s@, false), 0, 255) == Some(n as int),
            None => within(parse_integer(s@, false), 0, 255) is None,
        },
{
    let chars = to_chars(s);
    assert(chars@.skip(0) =~= chars@);
    let from: usize = if chars.len() > 0 && chars[0] == '+' {
        1
    } else {
        0
    };
    proof {
        if from == 1 {
            assert(chars@.skip(1) =~= chars@.drop_first());
        }
    }
    match capped_number(&chars, from) {
        Some(n) => if n <= 255 {
            Some(n as u8)
        } else {
            None
        },
        None => None,
    }
}

/// The 64-bit signed number that `s` writes in decimal.
pub fn parse_i64(s: &str) -> (r: Option<i64>)
    ensures
        match r {
            Some(n) => within(parse_integer(s@, true), i64::MIN as int, i64::MAX as int) == Some(
                n as int,
            ),
            None => within(parse_integer(s@, true), i64::MIN as int, i64::MAX as int) is None,
        },
{
    let chars = to_chars(s);
    assert(chars@.skip(0) =~= chars@);
    let signed = chars.len() > 0 && (chars[0] == '+' || chars[0] == '-');
    let from: usize = if signed {
        1
    } else {
        0
    };
    proof {
        if signed {
            assert(chars@.skip(1) =~= chars@.drop_first());
        }
    }
    match capped_number(&chars, from) {
        Some(n) => if signed && chars[0] == '-' {
            if n <= 0x8000_0000_0000_0000 {
                Some((-(n as i128)) as i64)
            } else {
                None
            }
        } else if n <= 0x7fff_ffff_ffff_ffff {
            Some(n as i64)
        } else {
            None
        },
        None => None,
    }
}

/// How many characters of `s` stand before its first line feed.
pub open spec fn line_length(s: Seq<char>) -> nat
    decreases s.len(),
{
    if s.len() == 0 || s[0] == '\n' {
        0
    } else {
        1 + line_length(s.drop_first())
    }
}

/// `s` without one carriage return at its end.
pub open spec fn without_return(s: Seq<char>) -> Seq<char> {
    if s.len() > 0 && s.last() == '\r' {
        s.drop_last()
    } else {
        s
    }
}

/// The length of the first line is at most that of the text.
pub proof fn lemma_line_length(s: Seq<char>)
    ensures
        line_length(s) <= s.len(),
        line_length(s) < s.len() ==> s[line_length(s) as int] == '\n',
        forall|i: int| 0 <= i < line_length(s) ==> s[i] != '\n',
    decreases s.len(),
{
    if s.len() > 0 && s[0] != '\n' {
        lemma_line_length(s.drop_first());
        assert forall|i: int| 0 <= i < line_length(s) implies s[i] != '\n' by {
            if i > 0 {
                assert(s[i] == s.drop_first()[i - 1]);
            }
        }
    }
}

/// The lines of `s`. A line ends at a line feed, which may have a carriage
/// return before it; the last line needs no ending.
pub open spec fn lines(s: Seq<char>) -> Seq<Seq<char>>
    decreases s.len(),
    via lines_decreases
{
    if s.len() == 0 {
        Seq::empty()
    } else if line_length(s) == s.len() {
        seq![s]
    } else {
        seq![without_return(s.take(line_length(s) as int))] + lines(
            s.skip(line_length(s) as int + 1),
        )
    }
}

#[via_fn]
proof fn lines_decreases(s: Seq<char>) {
    lemma_line_length(s);
}

/// The lines of whole lines followed by more text.
pub proof fn lemma_lines_concat(a: Seq<char>, b: Seq<char>)
    requires
        a.len() == 0 || a.last() == '\n',
    ensures
        lines(a + b) == lines(a) + lines(b),
    decreases a.len(),
{
    if a.len() == 0 {
        assert(a + b =~= b);
        assert(lines(a) + lines(b) =~= lines(b));
    } else {
        lemma_line_length(a);
        let k = line_length(a) as int;
        assert(k < a.len()) by {
            if k == a.len() {
                assert(a[k - 1] != '\n');
            }
        }
        lemma_line_length_concat(a, b);
        assert((a + b).take(k) =~= a.take(k));
        assert((a + b).skip(k + 1) =~= a.skip(k + 1) + b);
        if a.skip(k + 1).len() > 0 {
            assert(a.skip(k + 1).last() == a.last());
        }
        lemma_lines_concat(a.skip(k + 1), b);
        assert(lines(a + b) =~= lines(a) + lines(b));
    }
}

/// A line that ends within the first of two texts is as long in both together.
pub proof fn lemma_line_length_concat(a: Seq<char>, b: Seq<char>)
    requires
        line_length(a) < a.len(),
    ensures
        line_length(a + b) == line_length(a),
    decreases a.len(),
{
    assert((a + b)[0] == a[0]);
    if a[0] != '\n' {
        assert((a + b).drop_first() =~= a.drop_first() + b);
        lemma_line_length_concat(a.drop_first(), b);
    }
}

/// A line followed by a line feed and more text.
pub proof fn lemma_first_line(line: Seq<char>, rest: Seq<char>)
    requires
        forall|i: int| 0 <= i < line.len() ==> line[i] != '\n',
    ensures
        lines(line + seq!['\n'] + rest) == seq![without_return(line)] + lines(rest),
{
    let whole = line + seq!['\n'];
    lemma_line_length(whole);
    lemma_lines_concat(whole, rest);
    assert(line_length(whole) == line.len()) by {
        if line_length(whole) < line.len() {
            assert(whole[line_length(whole) as int] == line[line_length(whole) as int]);
        }
        if line_length(whole) > line.len() {
            assert(whole[line.len() as int] == '\n');
        }
    }
    assert(whole.take(line.len() as int) =~= line);
    assert(whole.skip(line.len() as int + 1) =~= Seq::<char>::empty());
    assert(lines(Seq::<char>::empty()) =~= Seq::<Seq<char>>::empty());
    assert(lines(whole) =~= seq![without_return(line)]);
    assert(whole + rest =~= line + seq!['\n'] + rest);
}

/// A number that was written in decimal is read back as it was.
pub proof fn decimal_is_read_back(n: int)
    ensures
        parse_integer(signed_decimal(n), true) == Some(n),
        n >= 0 ==> parse_integer(decimal(n as nat), false) == Some(n),
{
    let size: nat = if n < 0 {
        (-n) as nat
    } else {
        n as nat
    };
    lemma_decimal(size);
    assert(is_digit(decimal(size)[0]));
    if n < 0 {
        assert(signed_decimal(n).drop_first() =~= decimal(size));
    }
}

proof fn lemma_decimal(n: nat)
    ensures
        is_number(decimal(n)),
        number(decimal(n)) == n,
    decreases n,
{
    let s = decimal(n);
    if n < 10 {
        assert(s.drop_last() =~= Seq::<char>::empty());
        assert(number(Seq::<char>::empty()) == 0);
    } else {
        lemma_decimal(n / 10);
        assert(s.drop_last() =~= decimal(n / 10));
        assert forall|i: int| 0 <= i < s.len() implies is_digit(#[trigger] s[i]) by {
            if i < s.len() - 1 {
                assert(s[i] == decimal(n / 10)[i]);
            }
        }
    }
}

} // verus!
