//! Quoting and display helpers.

use vstd::prelude::*;
use vstd::string::*;
use crate::text;

verus! {

/// `text` as one word of a POSIX shell: in single quotes, with each single quote
/// in it put outside of them, behind a backslash.
pub open spec fn shell_quoted(text: Seq<char>) -> Seq<char> {
    "'"@ + text::replace_char(text, '\'', "'\\''"@) + "'"@
}

/// `text` as one word of a POSIX shell.
pub fn shell_quote(path: &str) -> (r: String)
    ensures
        r@ == shell_quoted(path@),
{
    let mut r = "'".to_owned();
    r.append(text::replaced(path, '\'', "'\\''").as_str());
    r.append("'");
    r
}

/// `value` for use between the quotation marks of an AppleScript string.
pub open spec fn applescript_escaped(value: Seq<char>) -> Seq<char> {
    text::replace_char(text::replace_char(value, '\\', "\\\\"@), '"', "\\\""@)
}

/// `value` for use between the quotation marks of an AppleScript string.
pub fn escape_applescript(value: &str) -> (r: String)
    ensures
        r@ == applescript_escaped(value@),
{
    text::replaced(text::replaced(value, '\\', "\\\\").as_str(), '"', "\\\"")
}

/// A share in percent, or a dash.
pub open spec fn shown_share(value: Option<u8>) -> Seq<char> {
    match value {
        Some(share) => text::decimal(share as nat) + "%"@,
        None => "-"@,
    }
}

/// A share in percent, or a dash.
pub fn display_pct(value: Option<u8>) -> (r: String)
    ensures
        r@ == shown_share(value),
{
    match value {
        Some(share) => {
            let mut r = text::show_u64(share as u64);
            r.append("%");
            r
        },
        None => "-".to_owned(),
    }
}

/// A time in seconds since the epoch, or a dash.
pub open spec fn shown_time(value: Option<i64>) -> Seq<char> {
    match value {
        Some(time) => text::signed_decimal(time as int),
        None => "-"@,
    }
}

/// A time in seconds since the epoch, or a dash.
pub fn display_ts(value: Option<i64>) -> (r: String)
    ensures
        r@ == shown_time(value),
{
    match value {
        Some(time) => text::show_i64(time),
        None => "-".to_owned(),
    }
}

/// The word that a shell reads from `s`, where `s` is made of parts in single
/// quotes and of single characters behind a backslash. `quoted` says whether
/// `s` starts within quotes.
pub open spec fn shell_word(s: Seq<char>, quoted: bool) -> Option<Seq<char>>
    decreases s.len(),
{
    if s.len() == 0 {
        if quoted {
            None
        } else {
            Some(Seq::empty())
        }
    } else if s[0] == '\'' {
        shell_word(s.drop_first(), !quoted)
    } else if quoted {
        prefixed(s[0], shell_word(s.drop_first(), true))
    } else if s[0] == '\\' && s.len() > 1 {
        prefixed(s[1], shell_word(s.skip(2), false))
    } else {
        None
    }
}

/// What an AppleScript string holds whose quotation marks enclose `s`. An
/// unescaped quotation mark would end the string early.
pub open spec fn applescript_string(s: Seq<char>) -> Option<Seq<char>>
    decreases s.len(),
{
    if s.len() == 0 {
        Some(Seq::empty())
    } else if s[0] == '\\' {
        if s.len() > 1 {
            prefixed(s[1], applescript_string(s.skip(2)))
        } else {
            None
        }
    } else if s[0] == '"' {
        None
    } else {
        prefixed(s[0], applescript_string(s.drop_first()))
    }
}

/// `rest` with `c` put before it.
pub open spec fn prefixed(c: char, rest: Option<Seq<char>>) -> Option<Seq<char>> {
    match rest {
        Some(rest) => Some(seq![c] + rest),
        None => None,
    }
}

/// A shell reads a quoted text back as one word, whatever the text holds.
pub proof fn shell_reads_quoted_text(text: Seq<char>)
    ensures
        shell_word(shell_quoted(text), false) == Some(text),
{
    reveal_strlit("'");
    lemma_shell_tail(text);
    let tail = text::replace_char(text, '\'', "'\\''"@) + "'"@;
    assert(shell_quoted(text) =~= "'"@ + tail);
    assert(shell_quoted(text).drop_first() =~= tail);
}

proof fn lemma_shell_tail(text: Seq<char>)
    ensures
        shell_word(text::replace_char(text, '\'', "'\\''"@) + "'"@, true) == Some(text),
    decreases text.len(),
{
    reveal_strlit("'");
    reveal_strlit("'\\''");
    let escape = "'\\''"@;
    let end = "'"@;
    let all = text::replace_char(text, '\'', escape) + end;
    if text.len() == 0 {
        assert(all =~= end);
        assert(end.drop_first() =~= Seq::<char>::empty());
        assert(shell_word(Seq::<char>::empty(), false) == Some(Seq::<char>::empty()));
        assert(text =~= Seq::<char>::empty());
    } else {
        let rest = text.drop_first();
        let tail = text::replace_char(rest, '\'', escape) + end;
        lemma_shell_tail(rest);
        text::lemma_replace_char_first(text, '\'', escape);
        assert(text =~= seq![text[0]] + rest);
        if text[0] == '\'' {
            assert(all =~= escape + tail);
            let one = all.drop_first();
            assert(one =~= seq!['\\', '\'', '\''] + tail);
            let two = one.skip(2);
            assert(two =~= seq!['\''] + tail);
            assert(two.drop_first() =~= tail);
            assert(shell_word(two, false) == Some(rest));
            assert(shell_word(one, false) == Some(seq!['\''] + rest));
        } else {
            assert(all =~= seq![text[0]] + tail);
            assert(all.drop_first() =~= tail);
        }
    }
}

/// An AppleScript string that encloses an escaped text holds the text, whatever
/// that holds.
pub proof fn applescript_reads_escaped_text(value: Seq<char>)
    ensures
        applescript_string(applescript_escaped(value)) == Some(value),
    decreases value.len(),
{
    reveal_strlit("\\\\");
    reveal_strlit("\\\"");
    let backslashes = "\\\\"@;
    let mark = "\\\""@;
    let all = applescript_escaped(value);
    if value.len() == 0 {
        assert(all =~= Seq::<char>::empty());
        assert(value =~= Seq::<char>::empty());
    } else {
        let rest = value.drop_first();
        let tail = applescript_escaped(rest);
        applescript_reads_escaped_text(rest);
        assert(value =~= seq![value[0]] + rest);
        text::lemma_replace_char_first(value, '\\', backslashes);
        let once = text::replace_char(rest, '\\', backslashes);
        let head = if value[0] == '\\' {
            backslashes
        } else {
            seq![value[0]]
        };
        text::lemma_replace_char_concat(head, once, '"', mark);
        reveal_with_fuel(text::replace_char, 3);
        if value[0] == '\\' {
            assert(head.drop_last() =~= seq!['\\']);
            assert(seq!['\\'].drop_last() =~= Seq::<char>::empty());
            assert(text::replace_char(head, '"', mark) =~= backslashes);
            assert(all =~= backslashes + tail);
            assert(all.skip(2) =~= tail);
        } else if value[0] == '"' {
            assert(head.drop_last() =~= Seq::<char>::empty());
            assert(text::replace_char(head, '"', mark) =~= mark);
            assert(all =~= mark + tail);
            assert(all.skip(2) =~= tail);
        } else {
            assert(head.drop_last() =~= Seq::<char>::empty());
            assert(text::replace_char(head, '"', mark) =~= head);
            assert(all =~= head + tail);
            assert(all.drop_first() =~= tail);
        }
    }
}

} // verus!
