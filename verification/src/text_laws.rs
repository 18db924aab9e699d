//! What holds of text, numbers and names, character by character.

use vstd::prelude::*;
use vstd::string::*;
use crate::domain;
use crate::domain::{AccountKind, NameError};
use crate::names;
use crate::statusline;
use crate::switcher;
use crate::switcher::{Reply, SwitchError};
use crate::text;

verus! {

/// Whether all of `s` is white space.
pub open spec fn is_blank(s: Seq<char>) -> bool {
    forall|i: int| 0 <= i < s.len() ==> text::is_space(#[trigger] s[i])
}

/// Whether `s` neither starts nor ends with white space.
pub open spec fn is_bare(s: Seq<char>) -> bool {
    s.len() > 0 ==> !text::is_space(s[0]) && !text::is_space(s.last())
}

/// White space is what Unicode calls so: a few ASCII characters, and some
/// others.
pub proof fn white_space_is_that_of_unicode(c: char)
    ensures
        c as int <= 127 ==> (text::is_space(c) <==> c as int == 32 || 9 <= c as int <= 13),
        c as int > 127 ==> (text::is_space(c) <==> {
            let code = c as int;
            code == 0x85 || code == 0xa0 || code == 0x1680 || 0x2000 <= code <= 0x200a || code
                == 0x2028 || code == 0x2029 || code == 0x202f || code == 0x205f || code == 0x3000
        }),
{
}

/// Trimming takes the white space off both ends and nothing else: what is left
/// of a bare text with blanks around it is that text.
pub proof fn trimming_leaves_bare_text(before: Seq<char>, core: Seq<char>, after: Seq<char>)
    requires
        is_blank(before),
        is_blank(after),
        is_bare(core),
    ensures
        text::trim(before + core + after) == core,
{
    lemma_trim_start(before, core + after);
    assert(before + core + after =~= before + (core + after));
    if core.len() == 0 {
        assert(core + after =~= after);
        lemma_trim_start(after, Seq::empty());
        assert(after + Seq::<char>::empty() =~= after);
        assert(text::trim_start(Seq::<char>::empty()) =~= Seq::<char>::empty());
        assert(text::trim_end(Seq::<char>::empty()) =~= Seq::<char>::empty());
        assert(core =~= Seq::<char>::empty());
    } else {
        assert((core + after)[0] == core[0]);
        lemma_trim_end(core, after);
    }
}

proof fn lemma_trim_start(blank: Seq<char>, rest: Seq<char>)
    requires
        is_blank(blank),
    ensures
        text::trim_start(blank + rest) == text::trim_start(rest),
    decreases blank.len(),
{
    if blank.len() == 0 {
        assert(blank + rest =~= rest);
    } else {
        let less = blank.drop_first();
        assert forall|i: int| 0 <= i < less.len() implies text::is_space(#[trigger] less[i]) by {
            assert(less[i] == blank[i + 1]);
        }
        lemma_trim_start(less, rest);
        assert((blank + rest)[0] == blank[0]);
        assert((blank + rest).drop_first() =~= less + rest);
    }
}

proof fn lemma_trim_end(core: Seq<char>, blank: Seq<char>)
    requires
        is_blank(blank),
        core.len() > 0,
        !text::is_space(core.last()),
    ensures
        text::trim_end(core + blank) == core,
    decreases blank.len(),
{
    if blank.len() == 0 {
        assert(core + blank =~= core);
    } else {
        let less = blank.drop_last();
        assert forall|i: int| 0 <= i < less.len() implies text::is_space(#[trigger] less[i]) by {
            assert(less[i] == blank[i]);
        }
        lemma_trim_end(core, less);
        assert((core + blank).last() == blank.last());
        assert((core + blank).drop_last() =~= core + less);
    }
}

/// Every text is a bare text with blanks around it.
pub proof fn text_is_bare_between_blanks(s: Seq<char>) -> (parts: (Seq<char>, Seq<char>))
    ensures
        is_blank(parts.0),
        is_blank(parts.1),
        is_bare(text::trim(s)),
        s == parts.0 + text::trim(s) + parts.1,
{
    let before = lemma_split_start(s);
    let after = lemma_split_end(text::trim_start(s));
    let core = text::trim(s);
    assert(s =~= before + core + after);
    if core.len() > 0 {
        assert(core[0] == text::trim_start(s)[0]);
    }
    (before, after)
}

proof fn lemma_split_start(s: Seq<char>) -> (before: Seq<char>)
    ensures
        is_blank(before),
        s == before + text::trim_start(s),
        text::trim_start(s).len() > 0 ==> !text::is_space(text::trim_start(s)[0]),
    decreases s.len(),
{
    if s.len() > 0 && text::is_space(s[0]) {
        let less = lemma_split_start(s.drop_first());
        let before = seq![s[0]] + less;
        assert forall|i: int| 0 <= i < before.len() implies text::is_space(#[trigger] before[i]) by {
            if i > 0 {
                assert(before[i] == less[i - 1]);
            }
        }
        assert(s =~= seq![s[0]] + s.drop_first());
        assert(s =~= before + text::trim_start(s));
        before
    } else {
        assert(s =~= Seq::<char>::empty() + s);
        Seq::empty()
    }
}

proof fn lemma_split_end(s: Seq<char>) -> (after: Seq<char>)
    ensures
        is_blank(after),
        s == text::trim_end(s) + after,
        text::trim_end(s).len() > 0 ==> !text::is_space(text::trim_end(s).last()),
    decreases s.len(),
{
    if s.len() > 0 && text::is_space(s.last()) {
        let less = lemma_split_end(s.drop_last());
        let after = less.push(s.last());
        assert forall|i: int| 0 <= i < after.len() implies text::is_space(#[trigger] after[i]) by {
            if i < less.len() {
                assert(after[i] == less[i]);
            }
        }
        assert(s =~= s.drop_last().push(s.last()));
        assert(s =~= text::trim_end(s) + after);
        after
    } else {
        assert(s =~= s + Seq::<char>::empty());
        Seq::empty()
    }
}

/// A text counts as blank if it is nothing but white space, and otherwise as
/// what stands between the white space.
pub proof fn blank_text_counts_as_none(before: Seq<char>, core: Seq<char>, after: Seq<char>)
    requires
        is_blank(before),
        is_blank(after),
        is_bare(core),
    ensures
        core.len() == 0 ==> statusline::nonblank_text(before + core + after) is None,
        core.len() > 0 ==> statusline::nonblank_text(before + core + after) == Some(core),
{
    trimming_leaves_bare_text(before, core, after);
}

/// A switch is agreed to by the words y, Y, yes and YES, with any white space
/// around them, and by nothing else.
pub proof fn only_four_words_agree(before: Seq<char>, word: Seq<char>, after: Seq<char>)
    requires
        is_blank(before),
        is_blank(after),
        is_bare(word),
    ensures
        ({
            let reply = Reply::Text(before + word + after);
            let agreed = word == seq!['y'] || word == seq!['Y'] || word == seq!['y', 'e', 's']
                || word == seq!['Y', 'E', 'S'];
            &&& agreed ==> switcher::consent(reply) is Ok
            &&& !agreed ==> switcher::consent(reply) == Err::<(), SwitchError<Seq<char>>>(
                SwitchError::Cancelled,
            )
        }),
        !(switcher::consent(Reply::Failed) is Ok),
        !(switcher::consent(Reply::NotInteractive) is Ok),
{
    trimming_leaves_bare_text(before, word, after);
    reveal_strlit("y");
    reveal_strlit("Y");
    reveal_strlit("yes");
    reveal_strlit("YES");
    assert("y"@ =~= seq!['y']);
    assert("Y"@ =~= seq!['Y']);
    assert("yes"@ =~= seq!['y', 'e', 's']);
    assert("YES"@ =~= seq!['Y', 'E', 'S']);
}

/// Whether `a` is the small-lettered `b`, written in any case.
pub open spec fn is_cased(a: Seq<char>, b: Seq<char>) -> bool {
    &&& a.len() == b.len()
    &&& forall|i: int|
        0 <= i < a.len() ==> a[i] == #[trigger] b[i] || (65 <= a[i] as int <= 90 && a[i] as int + 32
            == b[i] as int)
}

/// Lowering changes the letters A to Z, each to the one 32 codes further on, and
/// nothing else.
pub proof fn lowering_moves_capitals(s: Seq<char>, i: int)
    requires
        0 <= i < s.len(),
    ensures
        text::lower(s).len() == s.len(),
        65 <= s[i] as int <= 90 ==> text::lower(s)[i] as int == s[i] as int + 32,
        !(65 <= s[i] as int <= 90) ==> text::lower(s)[i] == s[i],
{
}

/// A subscription called team or enterprise, in any case and with any white
/// space around it, is of that kind; any other is of another.
pub proof fn subscription_tells_kind(before: Seq<char>, word: Seq<char>, after: Seq<char>)
    requires
        is_blank(before),
        is_blank(after),
        is_bare(word),
    ensures
        ({
            let kind = domain::subscription_kind(before + word + after);
            let team = is_cased(word, seq!['t', 'e', 'a', 'm']);
            let enterprise = is_cased(
                word,
                seq!['e', 'n', 't', 'e', 'r', 'p', 'r', 'i', 's', 'e'],
            );
            &&& kind == AccountKind::Team <==> team
            &&& kind == AccountKind::Enterprise <==> enterprise
            &&& kind == AccountKind::Other <==> !team && !enterprise
        }),
{
    trimming_leaves_bare_text(before, word, after);
    reveal_strlit("team");
    reveal_strlit("enterprise");
    let team = seq!['t', 'e', 'a', 'm'];
    let enterprise = seq!['e', 'n', 't', 'e', 'r', 'p', 'r', 'i', 's', 'e'];
    assert("team"@ =~= team);
    assert("enterprise"@ =~= enterprise);
    lemma_cased(word, team);
    lemma_cased(word, enterprise);
}

proof fn lemma_cased(word: Seq<char>, small: Seq<char>)
    requires
        forall|i: int| 0 <= i < small.len() ==> 97 <= #[trigger] small[i] as int <= 122,
    ensures
        text::lower(word) == small <==> is_cased(word, small),
{
    assert forall|i: int| 0 <= i < word.len() implies text::lower(word)[i] == text::lower_char(
        #[trigger] word[i],
    ) by {}
    if text::lower(word) == small {
        assert forall|i: int| 0 <= i < word.len() implies word[i] == #[trigger] small[i] || (65
            <= word[i] as int <= 90 && word[i] as int + 32 == small[i] as int) by {
            assert(text::lower(word)[i] == text::lower_char(word[i]));
        }
    }
    if is_cased(word, small) {
        assert forall|i: int| 0 <= i < word.len() implies #[trigger] text::lower(word)[i]
            == small[i] by {
            assert(text::lower(word)[i] == text::lower_char(word[i]));
            assert(word[i] == small[i] || word[i] as int + 32 == small[i] as int);
        }
        assert(text::lower(word) =~= small);
    }
}

/// A text stands in another one if that is made of it and of something before
/// and behind.
pub proof fn containing_is_standing_between(s: Seq<char>, pattern: Seq<char>)
    ensures
        text::contains(s, pattern) <==> exists|before: Seq<char>, after: Seq<char>|
            s == #[trigger] (before + pattern + after),
{
    if text::contains(s, pattern) {
        let at = choose|at: int| text::occurs_at(s, pattern, at);
        let before = s.take(at);
        let after = s.skip(at + pattern.len());
        assert(s =~= before + pattern + after);
    }
    if exists|before: Seq<char>, after: Seq<char>| s == #[trigger] (before + pattern + after) {
        let (before, after) = choose|before: Seq<char>, after: Seq<char>|
            s == #[trigger] (before + pattern + after);
        let at = before.len() as int;
        assert(s.subrange(at, at + pattern.len()) =~= pattern);
        assert(text::occurs_at(s, pattern, at));
    }
}

/// What stands behind a pattern for the first time is all that follows it.
pub proof fn first_occurrence_splits_text(s: Seq<char>, pattern: Seq<char>)
    ensures
        text::after_first(s, pattern) is Some <==> text::contains(s, pattern),
        text::after_first(s, pattern) matches Some(rest) ==> {
            let before = s.take(s.len() - rest.len() - pattern.len());
            &&& s == before + pattern + rest
            &&& forall|i: int|
                0 <= i < before.len() ==> #[trigger] s.take(i) + pattern + s.skip(
                    i + pattern.len(),
                ) != s
        },
{
    if text::contains(s, pattern) {
        let some = choose|at: int| text::occurs_at(s, pattern, at);
        let at = lemma_first(s, pattern, some);
        text::lemma_after_first(s, pattern, at);
        let rest = s.skip(at + pattern.len());
        let before = s.take(s.len() - rest.len() - pattern.len());
        assert(s =~= before + pattern + rest);
        assert forall|i: int| 0 <= i < before.len() implies #[trigger] s.take(i) + pattern + s.skip(
            i + pattern.len(),
        ) != s by {
            assert(!text::occurs_at(s, pattern, i));
            let parts = s.take(i) + pattern + s.skip(i + pattern.len());
            if parts == s {
                assert(parts.subrange(i, i + pattern.len()) =~= pattern);
            }
        }
    }
}

proof fn lemma_first(s: Seq<char>, pattern: Seq<char>, at: int) -> (first: int)
    requires
        text::occurs_at(s, pattern, at),
    ensures
        text::first_occurs_at(s, pattern, first),
    decreases at,
{
    if exists|earlier: int| earlier < at && text::occurs_at(s, pattern, earlier) {
        let earlier = choose|earlier: int| earlier < at && text::occurs_at(s, pattern, earlier);
        lemma_first(s, pattern, earlier)
    } else {
        assert(text::first_occurs_at(s, pattern, at));
        at
    }
}

/// Taking a character off the end of a text takes off all that stand there, and
/// nothing else.
pub proof fn end_is_taken_off(core: Seq<char>, run: Seq<char>, c: char)
    requires
        forall|i: int| 0 <= i < run.len() ==> #[trigger] run[i] == c,
        core.len() > 0 ==> core.last() != c,
    ensures
        text::trim_end_char(core + run, c) == core,
    decreases run.len(),
{
    if run.len() == 0 {
        assert(core + run =~= core);
    } else {
        let less = run.drop_last();
        assert forall|i: int| 0 <= i < less.len() implies #[trigger] less[i] == c by {
            assert(less[i] == run[i]);
        }
        end_is_taken_off(core, less, c);
        assert((core + run).last() == run.last());
        assert((core + run).drop_last() =~= core + less);
    }
}

/// Replacing goes character by character.
pub proof fn replacing_goes_by_character(
    a: Seq<char>,
    b: Seq<char>,
    c: char,
    other: char,
    by: Seq<char>,
)
    requires
        other != c,
    ensures
        text::replace_char(Seq::empty(), c, by) == Seq::<char>::empty(),
        text::replace_char(seq![c], c, by) == by,
        text::replace_char(seq![other], c, by) == seq![other],
        text::replace_char(a + b, c, by) == text::replace_char(a, c, by) + text::replace_char(
            b,
            c,
            by,
        ),
{
    text::lemma_replace_char_concat(a, b, c, by);
    assert(seq![c].drop_last() =~= Seq::<char>::empty());
    assert(seq![other].drop_last() =~= Seq::<char>::empty());
    assert(text::replace_char(Seq::empty(), c, by) =~= Seq::<char>::empty());
    assert(text::replace_char(seq![c], c, by) =~= by);
    assert(text::replace_char(seq![other], c, by) =~= seq![other]);
}

/// Text without a line feed is one line, or none where it is empty.
pub proof fn unbroken_text_is_one_line(s: Seq<char>)
    requires
        forall|i: int| 0 <= i < s.len() ==> #[trigger] s[i] != '\n',
    ensures
        text::lines(s) == if s.len() > 0 {
            seq![s]
        } else {
            Seq::empty()
        },
{
    text::lemma_line_length(s);
}

/// A line ends at a line feed, or at a carriage return and a line feed; neither
/// belongs to the line.
pub proof fn line_endings_are_not_in_lines(line: Seq<char>, rest: Seq<char>)
    requires
        forall|i: int| 0 <= i < line.len() ==> #[trigger] line[i] != '\n',
    ensures
        text::lines(line + seq!['\r', '\n'] + rest) == seq![line] + text::lines(rest),
        line.len() == 0 || line.last() != '\r' ==> text::lines(line + seq!['\n'] + rest)
            == seq![line] + text::lines(rest),
{
    let returned = line.push('\r');
    assert forall|i: int| 0 <= i < returned.len() implies returned[i] != '\n' by {
        if i < line.len() {
            assert(line[i] != '\n');
        }
    }
    text::lemma_first_line(returned, rest);
    text::lemma_first_line(line, rest);
    assert(returned.drop_last() =~= line);
    assert(returned + seq!['\n'] + rest =~= line + seq!['\r', '\n'] + rest);
}

/// Whether all of `s` are the digits 0 to 9.
pub open spec fn is_digits(s: Seq<char>) -> bool {
    forall|i: int| 0 <= i < s.len() ==> 48 <= #[trigger] s[i] as int <= 57
}

/// Decimal numbers are positional: each digit more counts ten times what stood
/// before it and its own value. A plus sign changes nothing, a minus sign the
/// sign, where one is allowed.
pub proof fn numbers_are_positional(s: Seq<char>, d: char, negative: bool)
    requires
        s.len() > 0,
        is_digits(s),
        48 <= d as int <= 57,
    ensures
        text::parse_integer(seq![d], negative) == Some(d as int - 48),
        text::parse_integer(s, negative) is Some,
        text::parse_integer(s.push(d), negative) == Some(
            10 * text::parse_integer(s, negative)->0 + (d as int - 48),
        ),
        text::parse_integer(seq!['+'] + s, negative) == text::parse_integer(s, negative),
        text::parse_integer(seq!['-'] + s, true) == Some(-text::parse_integer(s, true)->0),
        text::parse_integer(seq!['-'] + s, false) is None,
{
    lemma_is_number(s);
    lemma_is_number(seq![d]);
    lemma_is_number(s.push(d));
    assert(s.push(d).drop_last() =~= s);
    assert(seq![d].drop_last() =~= Seq::<char>::empty());
    assert(text::number(Seq::<char>::empty()) == 0);
    assert((seq!['+'] + s).drop_first() =~= s);
    assert((seq!['-'] + s).drop_first() =~= s);
    assert(48 <= s[0] as int <= 57);
    assert(s.push(d)[0] == s[0]);
    assert((seq!['-'] + s)[0] == '-');
    assert(!text::is_digit((seq!['-'] + s)[0]));
}

proof fn lemma_is_number(s: Seq<char>)
    requires
        s.len() > 0,
        is_digits(s),
    ensures
        text::is_number(s),
{
    assert forall|i: int| 0 <= i < s.len() implies text::is_digit(#[trigger] s[i]) by {
        assert(48 <= s[i] as int <= 57);
    }
}

/// A text with anything but digits behind its sign writes no number, nor does
/// one without digits.
pub proof fn other_text_writes_no_number(s: Seq<char>, at: int, negative: bool)
    requires
        0 <= at < s.len() ==> !(48 <= s[at] as int <= 57),
        s.len() > 0 ==> 0 <= at < s.len(),
        at == 0 && s.len() > 1 ==> s[0] != '+' && (negative ==> s[0] != '-'),
    ensures
        text::parse_integer(s, negative) is None,
{
    if s.len() > 0 {
        assert(!text::is_digit(s[at]));
        let rest = s.drop_first();
        if at > 0 {
            assert(rest[at - 1] == s[at]);
        }
    }
}

/// A number in decimal is digits only, without a zero in front.
pub proof fn decimal_is_plain(n: nat)
    ensures
        text::decimal(n).len() > 0,
        is_digits(text::decimal(n)),
        text::decimal(n)[0] == '0' ==> n == 0,
        n < 10 ==> text::decimal(n).len() == 1,
        text::parse_integer(text::decimal(n), false) == Some(n as int),
    decreases n,
{
    text::decimal_is_read_back(n as int);
    if n >= 10 {
        decimal_is_plain(n / 10);
        let s = text::decimal(n);
        let front = text::decimal(n / 10);
        assert forall|i: int| 0 <= i < s.len() implies 48 <= #[trigger] s[i] as int <= 57 by {
            if i < front.len() {
                assert(s[i] == front[i]);
            }
        }
        assert(s[0] == front[0]);
    }
}

/// A negative number has a minus sign before its size; others have none.
pub proof fn sign_stands_in_front(n: int)
    ensures
        n < 0 ==> text::signed_decimal(n) == seq!['-'] + text::decimal((-n) as nat),
        n >= 0 ==> is_digits(text::signed_decimal(n)),
        text::parse_integer(text::signed_decimal(n), true) == Some(n),
{
    text::decimal_is_read_back(n);
    if n >= 0 {
        decimal_is_plain(n as nat);
    }
}

/// A number is kept where it lies in a range, its ends included.
pub proof fn range_includes_its_ends(value: int, low: int, high: int)
    ensures
        text::within(Some(value), low, high) is Some <==> low <= value && value <= high,
        text::within(Some(value), low, high) matches Some(kept) ==> kept == value,
        text::within(None, low, high) is None,
{
}

/// Names are ordered by the first character in which they differ; a name that
/// ends before the other one comes first.
pub proof fn order_goes_by_first_difference(
    common: Seq<char>,
    a: char,
    b: char,
    more: Seq<char>,
    other: Seq<char>,
)
    ensures
        a != b ==> (names::precedes(common + (seq![a] + more), common + (seq![b] + other)) <==> (
        a as int) < (b as int)),
        names::precedes(common, common + (seq![b] + other)),
        !names::precedes(common + (seq![b] + other), common),
        !names::precedes(common, common),
    decreases common.len(),
{
    let left = seq![a] + more;
    let right = seq![b] + other;
    if common.len() == 0 {
        assert(common + left =~= left);
        assert(common + right =~= right);
        assert(left[0] == a && right[0] == b);
    } else {
        let less = common.drop_first();
        order_goes_by_first_difference(less, a, b, more, other);
        assert((common + left)[0] == common[0]);
        assert((common + right)[0] == common[0]);
        assert((common + left).drop_first() =~= less + left);
        assert((common + right).drop_first() =~= less + right);
    }
}

/// Whether `c` is a small ASCII letter or a digit.
pub open spec fn is_small_or_digit(c: char) -> bool {
    97 <= c as int <= 122 || 48 <= c as int <= 57
}

/// Whether `c` is a hyphen in `s` at `i` with a small letter or a digit on both
/// sides.
pub open spec fn is_inner_hyphen(s: Seq<char>, i: int) -> bool {
    &&& s[i] as int == 45
    &&& 0 < i < s.len() - 1
    &&& is_small_or_digit(s[i - 1])
    &&& is_small_or_digit(s[i + 1])
}

/// A name is valid if it is one to 64 characters long and made of small letters
/// and digits, with single hyphens between them; no other name is.
pub proof fn valid_names_are_words_and_hyphens(name: Seq<char>)
    ensures
        domain::name_error(name) is None <==> {
            &&& 1 <= name.len() <= 64
            &&& forall|i: int|
                0 <= i < name.len() ==> is_small_or_digit(#[trigger] name[i]) || is_inner_hyphen(
                    name,
                    i,
                )
        },
{
    let fits = 1 <= name.len() <= 64 && forall|i: int|
        0 <= i < name.len() ==> is_small_or_digit(#[trigger] name[i]) || is_inner_hyphen(name, i);
    if domain::name_error(name) is None {
        domain::valid_names_are_plain(name);
        assert forall|i: int| 0 <= i < name.len() implies is_small_or_digit(#[trigger] name[i])
            || is_inner_hyphen(name, i) by {
            assert(domain::is_name_char(name[i]));
            if name[i] == '-' {
                assert(name[0] != '-' && name.last() != '-');
                assert(0 < i < name.len() - 1);
                assert(domain::is_name_char(name[i - 1]));
                assert(domain::is_name_char(name[i + 1]));
                assert(!(name[i - 1] == '-' && name[i - 1 + 1] == '-'));
                assert(!(name[i] == '-' && name[i + 1] == '-'));
            }
        }
    }
    if fits {
        assert forall|i: int| 0 <= i < name.len() implies domain::is_name_char(
            #[trigger] name[i],
        ) by {
            assert(is_small_or_digit(name[i]) || is_inner_hyphen(name, i));
        }
        assert forall|i: int| 0 <= i < name.len() implies '\0' <= #[trigger] name[i]
            <= '\u{7f}' by {
            assert(domain::is_name_char(name[i]));
        }
        assert(vstd::utf8::is_ascii_chars(name));
        vstd::utf8::is_ascii_chars_encode_utf8(name);
        assert(is_small_or_digit(name[0]) || is_inner_hyphen(name, 0));
        assert(is_small_or_digit(name[name.len() - 1]) || is_inner_hyphen(name, name.len() - 1));
        assert forall|i: int| 0 <= i < name.len() - 1 implies !(#[trigger] name[i] == '-' && name[i
            + 1] == '-') by {
            assert(is_small_or_digit(name[i]) || is_inner_hyphen(name, i));
        }
    }
}

/// What is said to be wrong with a name is wrong with it. A bad length is said
/// before bad hyphens, and those before bad characters.
pub proof fn name_errors_are_in_the_name(name: Seq<char>)
    ensures
        ({
            let bytes = vstd::utf8::encode_utf8(name).len();
            let hyphens = (name.len() > 0 && (name[0] == '-' || name[name.len() - 1] == '-'))
                || exists|i: int|
                0 <= i && i + 1 < name.len() && #[trigger] name[i] == '-' && name[i + 1] == '-';
            let characters = exists|i: int|
                0 <= i < name.len() && !is_small_or_digit(#[trigger] name[i]) && name[i] != '-';
            &&& domain::name_error(name) == Some(NameError::Length) <==> bytes == 0 || bytes > 64
            &&& domain::name_error(name) == Some(NameError::Hyphens) <==> 1 <= bytes <= 64
                && hyphens
            &&& domain::name_error(name) == Some(NameError::Characters) <==> 1 <= bytes <= 64
                && !hyphens && characters
        }),
{
    assert(forall|c: char| domain::is_name_char(c) <==> is_small_or_digit(c) || c == '-');
    let characters = exists|i: int|
        0 <= i < name.len() && !is_small_or_digit(#[trigger] name[i]) && name[i] != '-';
    if !characters {
        assert forall|i: int| 0 <= i < name.len() implies domain::is_name_char(
            #[trigger] name[i],
        ) by {}
    }
}

} // verus!
