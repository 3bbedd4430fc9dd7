//! Device text made safe for an operator's terminal.

use vstd::prelude::*;

use crate::protocol::LogFrame;
use crate::text::{self, chars_of, push_numeral, push_text};

verus! {

/// A control character: one of Unicode's `Cc`.
pub open spec fn is_control_char(c: char) -> bool {
    c as u32 <= 0x1f || 0x7f <= c as u32 <= 0x9f
}

/// A character that renders as nothing yet alters how the text around it is
/// displayed: Unicode's `Cf` and the line and paragraph separators.
pub open spec fn is_invisible_char(c: char) -> bool {
    let u = c as u32;
    ||| u == 0xad
    ||| 0x600 <= u <= 0x605
    ||| u == 0x61c
    ||| u == 0x6dd
    ||| u == 0x70f
    ||| 0x890 <= u <= 0x891
    ||| u == 0x8e2
    ||| u == 0x110bd
    ||| u == 0x110cd
    ||| u == 0x180e
    ||| 0x200b <= u <= 0x200f
    ||| 0x2028 <= u <= 0x202e
    ||| 0x2060 <= u <= 0x2064
    ||| 0x2066 <= u <= 0x206f
    ||| u == 0xfeff
    ||| 0xfff9 <= u <= 0xfffb
    ||| 0x13430 <= u <= 0x1343f
    ||| 0x1bca0 <= u <= 0x1bca3
    ||| 0x1d173 <= u <= 0x1d17a
    ||| u == 0xe0001
    ||| 0xe0020 <= u <= 0xe007f
}

/// Whether `c` is a control character.
fn is_control(c: char) -> (r: bool)
    ensures
        r == is_control_char(c),
{
    let u: u32 = c as u32;
    u <= 0x1f || (0x7f <= u && u <= 0x9f)
}

/// Whether `c` renders as nothing yet alters the text around it.
pub fn is_invisible_format(c: char) -> (r: bool)
    ensures
        r == is_invisible_char(c),
{
    let u: u32 = c as u32;
    u == 0xad || (0x600 <= u && u <= 0x605) || u == 0x61c || u == 0x6dd || u == 0x70f || u == 0x8e2
        || u == 0x110bd || u == 0x110cd || u == 0x180e || (0x200b <= u && u <= 0x200f) || (0x2028
        <= u && u <= 0x202e) || (0x2060 <= u && u <= 0x2064) || (0x2066 <= u && u <= 0x206f) || u
        == 0xfeff || (0xfff9 <= u && u <= 0xfffb) || (0x1d173 <= u && u <= 0x1d17a) || u == 0xe0001
        || (0xe0020 <= u && u <= 0xe007f) || (0x890 <= u && u <= 0x891) || (0x13430 <= u && u
        <= 0x1343f) || (0x1bca0 <= u && u <= 0x1bca3)
}

/// A character written out: tab, newline and carriage return by their letters,
/// the rest by their code point.
pub open spec fn escaped_char(c: char) -> Seq<char> {
    if c == '\t' {
        "\\t"@
    } else if c == '\n' {
        "\\n"@
    } else if c == '\r' {
        "\\r"@
    } else {
        "\\u{"@ + text::numeral(c as nat, 16) + "}"@
    }
}

/// What a terminal is shown of one device character.
pub open spec fn shown_char(c: char) -> Seq<char> {
    if is_control_char(c) || is_invisible_char(c) {
        escaped_char(c)
    } else {
        seq![c]
    }
}

/// What a terminal is shown of device text.
pub open spec fn shown(text: Seq<char>) -> Seq<char>
    decreases text.len(),
{
    if text.len() == 0 {
        seq![]
    } else {
        shown(text.drop_last()) + shown_char(text.last())
    }
}

fn push_escaped(out: &mut String, c: char)
    ensures
        final(out)@ == old(out)@ + escaped_char(c),
{
    if c == '\t' {
        push_text(out, "\\t");
    } else if c == '\n' {
        push_text(out, "\\n");
    } else if c == '\r' {
        push_text(out, "\\r");
    } else {
        push_text(out, "\\u{");
        push_numeral(out, c as u64, 16);
        push_text(out, "}");
        assert(out@ =~= old(out)@ + escaped_char(c));
    }
}

/// Device text for a terminal: control characters and invisible formatting
/// characters are written out, everything else passes through. A backslash in the
/// text is not doubled, so the result is for display and cannot be undone.
pub fn escape_device_str(s: &str) -> (r: String)
    ensures
        r@ == shown(s@),
{
    let mut out = String::new();
    let chars = chars_of(s);
    let mut i: usize = 0;
    while i < chars.len()
        invariant
            i <= chars.len(),
            chars@ == s@,
            out@ == shown(s@.take(i as int)),
        decreases chars.len() - i,
    {
        let c = chars[i];
        i = i + 1;
        assert(s@.take(i as int).drop_last() =~= s@.take(i - 1));
        if is_control(c) || is_invisible_format(c) {
            push_escaped(&mut out, c);
        } else {
            out.push(c);
            assert(out@ =~= shown(s@.take(i as int)));
        }
    }
    assert(s@.take(i as int) =~= s@);
    out
}

/// A log line as operators read it.
pub open spec fn log_text(log: LogFrame) -> Seq<char> {
    "[device "@ + log.level.name_text() + "] "@ + shown(log.target@) + ": "@ + shown(log.message@)
}

/// A log line as operators read it, its device text made safe to print.
pub fn format_log(log: &LogFrame) -> (r: String)
    ensures
        r@ == log_text(*log),
{
    let mut out = String::new();
    push_text(&mut out, "[device ");
    push_text(&mut out, log.level.name());
    push_text(&mut out, "] ");
    let target = escape_device_str(log.target.as_str());
    push_text(&mut out, target.as_str());
    push_text(&mut out, ": ");
    let message = escape_device_str(log.message.as_str());
    push_text(&mut out, message.as_str());
    assert(out@ =~= log_text(*log));
    out
}

/// A character that can neither move the cursor nor reorder the text.
pub open spec fn is_plain_char(c: char) -> bool {
    !is_control_char(c) && !is_invisible_char(c)
}

proof fn shown_char_is_plain(c: char, i: int)
    requires
        0 <= i < shown_char(c).len(),
    ensures
        is_plain_char(shown_char(c)[i]),
{
    reveal_strlit("\\t");
    reveal_strlit("\\n");
    reveal_strlit("\\r");
    reveal_strlit("\\u{");
    reveal_strlit("}");
    if (is_control_char(c) || is_invisible_char(c)) && c != '\t' && c != '\n' && c != '\r' {
        let digits = text::numeral(c as nat, 16);
        if 3 <= i < 3 + digits.len() {
            text::numeral_holds_digits(c as nat, 16, i - 3);
            let d = choose|d: nat| d < 16 && digits[i - 3] == #[trigger] text::digit_char(d);
            assert(shown_char(c)[i] == text::digit_char(d));
        }
    }
}

/// Whatever a device sends, the terminal is shown no control character and no
/// invisible formatting character.
pub proof fn the_terminal_sees_only_plain_characters(text: Seq<char>, i: int)
    requires
        0 <= i < shown(text).len(),
    ensures
        is_plain_char(shown(text)[i]),
    decreases text.len(),
{
    if text.len() > 0 {
        let before = shown(text.drop_last());
        if i < before.len() {
            the_terminal_sees_only_plain_characters(text.drop_last(), i);
        } else {
            shown_char_is_plain(text.last(), i - before.len());
        }
    }
}

/// Text without such characters is shown as it is.
pub proof fn plain_text_passes_through(text: Seq<char>)
    requires
        forall|i: int| 0 <= i < text.len() ==> is_plain_char(#[trigger] text[i]),
    ensures
        shown(text) == text,
    decreases text.len(),
{
    if text.len() > 0 {
        let front = text.drop_last();
        assert forall|i: int| 0 <= i < front.len() implies is_plain_char(#[trigger] front[i]) by {
            assert(front[i] == text[i]);
        }
        plain_text_passes_through(front);
        assert(is_plain_char(text[text.len() - 1]));
        assert(shown(text) =~= text);
    } else {
        assert(shown(text) =~= text);
    }
}

/// A character is shown as it is exactly where it is none of Unicode's control
/// characters, formatting characters and line and paragraph separators.
pub proof fn what_is_not_shown_is_known_by_code_point(c: char)
    ensures
        ({
            let u = c as u32;
            is_plain_char(c) <==> {
                &&& 0x20 <= u
                &&& !(0x7f <= u <= 0x9f)
                &&& u != 0xad
                &&& !(0x600 <= u <= 0x605)
                &&& u != 0x61c
                &&& u != 0x6dd
                &&& u != 0x70f
                &&& !(0x890 <= u <= 0x891)
                &&& u != 0x8e2
                &&& u != 0x180e
                &&& !(0x200b <= u <= 0x200f)
                &&& !(0x2028 <= u <= 0x202e)
                &&& !(0x2060 <= u <= 0x2064)
                &&& !(0x2066 <= u <= 0x206f)
                &&& u != 0xfeff
                &&& !(0xfff9 <= u <= 0xfffb)
                &&& u != 0x110bd
                &&& u != 0x110cd
                &&& !(0x13430 <= u <= 0x1343f)
                &&& !(0x1bca0 <= u <= 0x1bca3)
                &&& !(0x1d173 <= u <= 0x1d17a)
                &&& u != 0xe0001
                &&& !(0xe0020 <= u <= 0xe007f)
            }
        }),
{
}

/// Text is shown character by character, in order: what is plain as it is, tab, newline
/// and carriage return by their letters, and any other by its code point.
pub proof fn text_is_shown_character_by_character(first: Seq<char>, then: Seq<char>, c: char)
    ensures
        shown(first + then) == shown(first) + shown(then),
        is_plain_char(c) ==> shown(seq![c]) == seq![c],
        shown(seq!['\t']) == seq!['\\', 't'],
        shown(seq!['\n']) == seq!['\\', 'n'],
        shown(seq!['\r']) == seq!['\\', 'r'],
        !is_plain_char(c) && c != '\t' && c != '\n' && c != '\r' ==> shown(seq![c]) == seq![
            '\\',
            'u',
            '{',
        ] + text::numeral(c as nat, 16) + seq!['}'],
    decreases then.len(),
{
    reveal_strlit("\\t");
    reveal_strlit("\\n");
    reveal_strlit("\\r");
    reveal_strlit("\\u{");
    reveal_strlit("}");
    one_character_is_shown(c);
    one_character_is_shown('\t');
    one_character_is_shown('\n');
    one_character_is_shown('\r');
    assert("\\t"@ =~= seq!['\\', 't']);
    assert("\\n"@ =~= seq!['\\', 'n']);
    assert("\\r"@ =~= seq!['\\', 'r']);
    assert("\\u{"@ =~= seq!['\\', 'u', '{']);
    assert("}"@ =~= seq!['}']);
    if then.len() == 0 {
        assert(first + then =~= first);
        assert(shown(first) + shown(then) =~= shown(first));
    } else {
        assert((first + then).drop_last() =~= first + then.drop_last());
        text_is_shown_character_by_character(first, then.drop_last(), c);
        assert(shown(first + then) =~= shown(first) + shown(then));
    }
}

proof fn one_character_is_shown(c: char)
    ensures
        shown(seq![c]) == shown_char(c),
{
    assert(seq![c].drop_last() =~= seq![]);
    assert(shown(seq![]) =~= seq![]);
    assert(seq![c].last() == c);
    assert(shown(seq![c]) =~= shown_char(c));
}

/// A log line names its level, then where it came from, then what it says, both made safe
/// to print.
pub proof fn a_log_line_names_level_target_and_message(log: LogFrame)
    ensures
        log_text(log) == "[device "@ + log.level.name_text() + "] "@ + shown(log.target@) + ": "@
            + shown(log.message@),
{
}

} // verus!
