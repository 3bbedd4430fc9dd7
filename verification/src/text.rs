//! Text built out of numbers and characters.

use vstd::prelude::*;
use vstd::string::StringExecFns;

verus! {

/// Specifies `String::push`: the character goes behind what the string already
/// holds.
pub assume_specification[ String::push ](s: &mut String, c: char)
    ensures
        final(s)@ == old(s)@.push(c),
;

/// The character of one digit in a base of at most sixteen, letters in lower case.
pub open spec fn digit_char(d: nat) -> char {
    if d < 10 {
        (48 + d) as char
    } else {
        (87 + d) as char
    }
}

/// `n` written out in `base`, most significant digit first, without leading zeros.
pub open spec fn numeral(n: nat, base: nat) -> Seq<char>
    decreases n,
    when base >= 2
{
    if n < base {
        seq![digit_char(n)]
    } else {
        proof {
            assert(n / base < n) by (nonlinear_arith)
                requires
                    n >= base,
                    base >= 2,
            ;
        }
        numeral(n / base, base).push(digit_char(n % base))
    }
}

/// `n` in decimal.
pub open spec fn decimal(n: nat) -> Seq<char> {
    numeral(n, 10)
}

/// The digit's character.
pub(crate) fn digit(d: u64) -> (c: char)
    requires
        d < 16,
    ensures
        c == digit_char(d as nat),
{
    let d: u8 = d as u8;
    if d < 10 {
        (48 + d) as char
    } else {
        (87 + d) as char
    }
}

/// Appends `n` in `base`.
pub(crate) fn push_numeral(out: &mut String, n: u64, base: u64)
    requires
        2 <= base <= 16,
    ensures
        final(out)@ == old(out)@ + numeral(n as nat, base as nat),
    decreases n,
{
    let rest: u64 = n / base;
    if n >= base {
        proof {
            assert(rest < n) by (nonlinear_arith)
                requires
                    n >= base,
                    base >= 2,
                    rest == n / base,
            ;
        }
        push_numeral(out, rest, base);
    }
    let low: u64 = n % base;
    proof {
        assert(low < base && (n < base ==> low == n)) by (nonlinear_arith)
            requires
                base >= 2,
                low == n % base,
        ;
    }
    out.push(digit(low));
    assert(out@ =~= old(out)@ + numeral(n as nat, base as nat));
}

/// Appends `n` in decimal.
pub(crate) fn push_decimal(out: &mut String, n: u64)
    ensures
        final(out)@ == old(out)@ + decimal(n as nat),
{
    push_numeral(out, n, 10);
}

/// Appends a number of twice the width in decimal.
pub(crate) fn push_wide_decimal(out: &mut String, n: u128)
    ensures
        final(out)@ == old(out)@ + decimal(n as nat),
    decreases n,
{
    if n >= 10 {
        push_wide_decimal(out, n / 10);
    }
    out.push(digit((n % 10) as u64));
    assert(out@ =~= old(out)@ + decimal(n as nat));
}

/// Whether two texts hold the same characters.
pub(crate) fn same_text(a: &str, b: &str) -> (r: bool)
    ensures
        r == (a@ == b@),
{
    let left: String = a.to_owned();
    let right: String = b.to_owned();
    left == right
}

/// The characters of `text`.
pub(crate) fn chars_of(text: &str) -> (r: Vec<char>)
    ensures
        r@ == text@,
{
    let mut out: Vec<char> = Vec::new();
    for c in it: text.chars()
        invariant
            out@ == text@.take(it.index()),
            it.seq() == text@,
    {
        proof {
            assert(text@.take(it.index() + 1) =~= text@.take(it.index()).push(c));
        }
        out.push(c);
    }
    assert(out@ =~= text@);
    out
}

/// Bytes that `text` takes in UTF-8.
pub open spec fn byte_len(text: Seq<char>) -> nat {
    vstd::utf8::encode_utf8(text).len()
}

/// Bytes that `text` takes in UTF-8.
pub(crate) fn utf8_len(text: &str) -> (r: usize)
    ensures
        r == byte_len(text@),
{
    text.as_bytes().len()
}

/// Appends `more`.
pub(crate) fn push_text(out: &mut String, more: &str)
    ensures
        final(out)@ == old(out)@ + more@,
{
    out.append(more);
}

/// `count` copies of `c`.
pub open spec fn repeated(c: char, count: int) -> Seq<char> {
    Seq::new(
        if count < 0 {
            0
        } else {
            count as nat
        },
        |i: int| c,
    )
}

/// `n` in `base`, with zeros in front up to `width` digits.
pub open spec fn padded_numeral(n: nat, base: nat, width: nat) -> Seq<char> {
    repeated('0', width - numeral(n, base).len()) + numeral(n, base)
}

/// Appends `c` until `out` has grown by `count` characters.
pub(crate) fn push_repeated(out: &mut String, c: char, count: usize)
    ensures
        final(out)@ == old(out)@ + repeated(c, count as int),
{
    let mut i: usize = 0;
    assert(out@ =~= old(out)@ + repeated(c, 0));
    while i < count
        invariant
            i <= count,
            out@ == old(out)@ + repeated(c, i as int),
        decreases count - i,
    {
        out.push(c);
        i = i + 1;
        assert(out@ =~= old(out)@ + repeated(c, i as int));
    }
}

/// Appends `n` in `base`, with zeros in front up to `width` digits.
pub(crate) fn push_padded(out: &mut String, n: u64, base: u64, width: usize)
    requires
        2 <= base <= 16,
    ensures
        final(out)@ == old(out)@ + padded_numeral(n as nat, base as nat, width as nat),
    decreases n,
{
    let rest: u64 = n / base;
    let low: u64 = n % base;
    let front: usize = width.saturating_sub(1);
    proof {
        assert(low < base && (n < base ==> low == n) && (n >= base ==> rest < n))
            by (nonlinear_arith)
            requires
                base >= 2,
                rest == n / base,
                low == n % base,
        ;
    }
    if n >= base {
        push_padded(out, rest, base, front);
        proof {
            numeral_is_not_empty(rest as nat, base as nat);
        }
    } else {
        push_repeated(out, '0', front);
    }
    out.push(digit(low));
    assert(out@ =~= old(out)@ + padded_numeral(n as nat, base as nat, width as nat));
}

/// A numeral has at least one digit.
pub proof fn numeral_is_not_empty(n: nat, base: nat)
    requires
        base >= 2,
    ensures
        numeral(n, base).len() >= 1,
{
}

/// Every character of a numeral is a digit.
pub proof fn numeral_holds_digits(n: nat, base: nat, i: int)
    requires
        2 <= base <= 16,
        0 <= i < numeral(n, base).len(),
    ensures
        exists|d: nat| d < base && numeral(n, base)[i] == #[trigger] digit_char(d),
    decreases n,
{
    if n < base {
        assert(numeral(n, base)[0] == digit_char(n));
    } else {
        assert(n / base < n && n % base < base) by (nonlinear_arith)
            requires
                n >= base,
                base >= 2,
        ;
        if i < numeral(n / base, base).len() {
            numeral_holds_digits(n / base, base, i);
            let d = choose|d: nat| d < base && numeral(n / base, base)[i] == digit_char(d);
            assert(numeral(n, base)[i] == digit_char(d));
        } else {
            assert(numeral(n, base)[i] == digit_char(n % base));
        }
    }
}

/// What each of `lines` holds.
pub open spec fn texts(lines: Seq<String>) -> Seq<Seq<char>> {
    lines.map_values(|line: String| line@)
}

/// `needle` stands in `text` at `at`.
pub open spec fn stands_at(text: Seq<char>, needle: Seq<char>, at: int) -> bool {
    &&& 0 <= at
    &&& at + needle.len() <= text.len()
    &&& text.subrange(at, at + needle.len()) == needle
}

/// `needle` stands somewhere in `text`.
pub open spec fn occurs(text: Seq<char>, needle: Seq<char>) -> bool {
    exists|at: int| #[trigger] stands_at(text, needle, at)
}

fn matches_at(text: &Vec<char>, needle: &Vec<char>, at: usize) -> (r: bool)
    requires
        at + needle.len() <= text.len(),
    ensures
        r == stands_at(text@, needle@, at as int),
{
    let mut i: usize = 0;
    while i < needle.len()
        invariant
            i <= needle.len(),
            at + needle.len() <= text.len(),
            forall|j: int| 0 <= j < i ==> text@[at + j] == #[trigger] needle@[j],
        decreases needle.len() - i,
    {
        if text[at + i] != needle[i] {
            proof {
                let window = text@.subrange(at as int, at + needle@.len());
                assert(window[i as int] != needle@[i as int]);
            }
            return false;
        }
        i = i + 1;
    }
    assert(text@.subrange(at as int, at + needle@.len()) =~= needle@);
    true
}

/// Whether `needle` stands somewhere in `text`.
pub(crate) fn contains_text(text: &str, needle: &str) -> (r: bool)
    ensures
        r == occurs(text@, needle@),
{
    let hay = chars_of(text);
    let wanted = chars_of(needle);
    if wanted.len() > hay.len() {
        return false;
    }
    let last: usize = hay.len() - wanted.len();
    let mut at: usize = 0;
    while at <= last
        invariant
            at <= last + 1,
            last == hay.len() - wanted.len(),
            hay@ == text@,
            wanted@ == needle@,
            forall|i: int| 0 <= i < at ==> !#[trigger] stands_at(text@, needle@, i),
        decreases last + 1 - at,
    {
        if matches_at(&hay, &wanted, at) {
            return true;
        }
        if at == last {
            return false;
        }
        at = at + 1;
    }
    false
}

/// `items` in a row, a comma and a space between each two.
pub open spec fn joined(items: Seq<Seq<char>>) -> Seq<char>
    decreases items.len(),
{
    if items.len() == 0 {
        seq![]
    } else if items.len() == 1 {
        items[0]
    } else {
        joined(items.drop_last()) + ", "@ + items.last()
    }
}

/// Appends `items` in a row, a comma and a space between each two.
pub(crate) fn push_joined(out: &mut String, items: &Vec<String>)
    ensures
        final(out)@ == old(out)@ + joined(texts(items@)),
{
    let mut i: usize = 0;
    let ghost all = texts(items@);
    assert(out@ =~= old(out)@ + joined(all.take(0)));
    while i < items.len()
        invariant
            i <= items.len(),
            all == texts(items@),
            out@ == old(out)@ + joined(all.take(i as int)),
        decreases items.len() - i,
    {
        if i > 0 {
            push_text(out, ", ");
        }
        push_text(out, items[i].as_str());
        proof {
            let longer = all.take(i + 1);
            assert(longer.drop_last() =~= all.take(i as int));
            assert(longer.last() == items@[i as int]@);
            assert(out@ =~= old(out)@ + joined(longer));
        }
        i = i + 1;
    }
    assert(all.take(i as int) =~= all);
}

/// What a digit stands for.
pub open spec fn digit_value(c: char) -> int {
    if '0' as int <= c as int <= '9' as int {
        c as int - '0' as int
    } else {
        c as int - 'a' as int + 10
    }
}

/// What a row of digits stands for in `base`.
pub open spec fn value_of(digits: Seq<char>, base: nat) -> int
    decreases digits.len(),
{
    if digits.len() == 0 {
        0
    } else {
        value_of(digits.drop_last(), base) * base + digit_value(digits.last())
    }
}

/// A numeral is read back as the number it was written for, in any base up to sixteen.
pub proof fn a_numeral_reads_back(n: nat, base: nat)
    requires
        2 <= base <= 16,
    ensures
        value_of(numeral(n, base), base) == n,
    decreases n,
{
    let digits = numeral(n, base);
    if n < base {
        assert(digits.drop_last() =~= seq![]);
        assert(value_of(digits.drop_last(), base) == 0);
        assert(0 * base == 0) by (nonlinear_arith);
    } else {
        let rest = n / base;
        let low = n % base;
        assert(rest < n && low < base && rest * base + low == n) by (nonlinear_arith)
            requires
                n >= base,
                base >= 2,
                rest == n / base,
                low == n % base,
        ;
        a_numeral_reads_back(rest, base);
        assert(digits.drop_last() =~= numeral(rest, base));
    }
}

/// A decimal is read back in base ten.
pub proof fn a_decimal_reads_back(n: nat)
    ensures
        value_of(decimal(n), 10) == n,
{
    a_numeral_reads_back(n, 10);
}

/// A numeral has no zero in front, but for zero itself, and every character of it is a
/// digit or a small letter from `a` to `f`.
pub proof fn a_numeral_has_no_zero_in_front(n: nat, base: nat)
    requires
        2 <= base <= 16,
        n > 0,
    ensures
        numeral(n, base).len() > 0,
        numeral(n, base)[0] != '0',
    decreases n,
{
    if n >= base {
        let rest = n / base;
        assert(0 < rest < n) by (nonlinear_arith)
            requires
                n >= base,
                base >= 2,
                rest == n / base,
        ;
        a_numeral_has_no_zero_in_front(rest, base);
        assert(numeral(n, base)[0] == numeral(rest, base)[0]);
    }
}

/// The digits of a base up to sixteen are the ten figures and then the small letters.
pub proof fn digits_are_figures_and_small_letters(d: nat)
    requires
        d < 16,
    ensures
        d < 10 ==> digit_char(d) as int == '0' as int + d,
        d >= 10 ==> digit_char(d) as int == 'a' as int + d - 10,
{
}

/// A padded numeral stands for the same number, has as many digits as asked or more,
/// and is only longer than the bare one by zeros in front.
pub proof fn padding_adds_zeros_in_front(n: nat, base: nat, width: nat)
    requires
        2 <= base <= 16,
    ensures
        ({
            let bare = numeral(n, base);
            let padded = padded_numeral(n, base, width);
            let zeros = padded.len() - bare.len();
            &&& padded.len() == if bare.len() >= width {
                bare.len()
            } else {
                width
            }
            &&& padded.skip(zeros) == bare
            &&& forall|i: int| 0 <= i < zeros ==> #[trigger] padded[i] == '0'
        }),
{
    let bare = numeral(n, base);
    let padded = padded_numeral(n, base, width);
    assert(padded.skip(padded.len() - bare.len()) =~= bare);
}

/// Copies of a character are that many of it.
pub proof fn copies_are_counted(c: char, count: int)
    ensures
        count >= 0 ==> repeated(c, count).len() == count,
        count < 0 ==> repeated(c, count).len() == 0,
        forall|i: int| 0 <= i < repeated(c, count).len() ==> #[trigger] repeated(c, count)[i] == c,
{
}

/// A text occurs in another exactly where the other is that text with something in front
/// of it and something behind it.
pub proof fn a_text_occurs_between_two_others(text: Seq<char>, needle: Seq<char>)
    ensures
        occurs(text, needle) <==> exists|front: Seq<char>, back: Seq<char>|
            text == #[trigger] (front + needle + back),
{
    if occurs(text, needle) {
        let at = choose|at: int| #[trigger] stands_at(text, needle, at);
        let front = text.take(at);
        let back = text.skip(at + needle.len());
        let middle = text.subrange(at, at + needle.len());
        assert(text =~= front + middle + back);
    }
    if exists|front: Seq<char>, back: Seq<char>| text == #[trigger] (front + needle + back) {
        let (front, back) = choose|front: Seq<char>, back: Seq<char>|
            text == #[trigger] (front + needle + back);
        let at = front.len() as int;
        assert(text.subrange(at, at + needle.len()) =~= needle);
        assert(stands_at(text, needle, at));
    }
}

/// Joined items are the items in their order, a comma and a space between each two and
/// nothing else.
pub proof fn joining_goes_piece_by_piece(first: Seq<Seq<char>>, then: Seq<Seq<char>>, one: Seq<char>)
    ensures
        joined(Seq::<Seq<char>>::empty()) == Seq::<char>::empty(),
        joined(seq![one]) == one,
        first.len() > 0 && then.len() > 0 ==> joined(first + then) == joined(first) + seq![
            ',',
            ' ',
        ] + joined(then),
    decreases then.len(),
{
    reveal_strlit(", ");
    assert(", "@ =~= seq![',', ' ']);
    if first.len() > 0 && then.len() > 0 {
        let all = first + then;
        assert(all.drop_last() =~= first + then.drop_last());
        if then.len() == 1 {
            assert(first + then.drop_last() =~= first);
            assert(joined(all) =~= joined(first) + seq![',', ' '] + joined(then));
        } else {
            joining_goes_piece_by_piece(first, then.drop_last(), one);
            assert(joined(all) =~= joined(first) + seq![',', ' '] + joined(then));
        }
    }
}

/// Texts are taken each as it is, in their order.
pub proof fn every_text_is_taken_as_it_is(lines: Seq<String>, i: int)
    requires
        0 <= i < lines.len(),
    ensures
        texts(lines).len() == lines.len(),
        texts(lines)[i] == lines[i]@,
{
}

} // verus!
