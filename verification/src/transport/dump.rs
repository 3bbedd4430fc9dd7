//! Undecodable bytes rendered for a human, such as the panic text of a device
//! that crashed instead of framing its output.

use vstd::prelude::*;

use crate::text::{self, digit, push_padded, push_repeated, push_text};

verus! {

/// A byte in hexadecimal and a space.
pub open spec fn hex_cell(b: u8) -> Seq<char> {
    seq![text::digit_char((b / 16) as nat), text::digit_char((b % 16) as nat), ' ']
}

/// A byte in the gutter: itself where it is printable, a dot otherwise.
pub open spec fn gutter_char(b: u8) -> char {
    if 0x20 <= b <= 0x7e {
        b as char
    } else {
        '.'
    }
}

/// The hexadecimal column of `bytes`.
pub open spec fn hex_column(bytes: Seq<u8>) -> Seq<char>
    decreases bytes.len(),
{
    if bytes.len() == 0 {
        seq![]
    } else {
        hex_column(bytes.drop_last()) + hex_cell(bytes.last())
    }
}

/// The gutter of `bytes`.
pub open spec fn gutter(bytes: Seq<u8>) -> Seq<char> {
    Seq::new(bytes.len(), |i: int| gutter_char(bytes[i]))
}

/// One row: the offset, the bytes in hexadecimal, and the gutter in one column.
pub open spec fn row_text(offset: nat, bytes: Seq<u8>) -> Seq<char> {
    "  "@ + text::padded_numeral(offset, 16, 4) + ": "@ + hex_column(bytes) + text::repeated(
        ' ',
        48 - 3 * bytes.len(),
    ) + "|"@ + gutter(bytes) + "|\n"@
}

/// The bytes of row `row`, sixteen but for the last.
pub open spec fn row_bytes(bytes: Seq<u8>, row: int) -> Seq<u8> {
    let end = if row * 16 + 16 <= bytes.len() {
        row * 16 + 16
    } else {
        bytes.len() as int
    };
    bytes.subrange(row * 16, end)
}

/// The first `rows` rows of `bytes`.
pub open spec fn rows_text(bytes: Seq<u8>, rows: nat) -> Seq<char>
    decreases rows,
{
    if rows == 0 {
        seq![]
    } else {
        rows_text(bytes, (rows - 1) as nat) + row_text(
            ((rows - 1) * 16) as nat,
            row_bytes(bytes, rows - 1),
        )
    }
}

/// All of `bytes`, sixteen to the row.
pub open spec fn dump_text(bytes: Seq<u8>) -> Seq<char> {
    rows_text(bytes, (bytes.len() + 15) / 16)
}

fn push_hex(out: &mut String, bytes: &[u8], from: usize, to: usize)
    requires
        from <= to <= bytes.len(),
    ensures
        final(out)@ == old(out)@ + hex_column(bytes@.subrange(from as int, to as int)),
{
    let mut i: usize = from;
    assert(out@ =~= old(out)@ + hex_column(bytes@.subrange(from as int, from as int)));
    while i < to
        invariant
            from <= i <= to <= bytes.len(),
            out@ == old(out)@ + hex_column(bytes@.subrange(from as int, i as int)),
        decreases to - i,
    {
        let b: u8 = bytes[i];
        out.push(digit((b / 16) as u64));
        out.push(digit((b % 16) as u64));
        out.push(' ');
        i = i + 1;
        proof {
            let grown = bytes@.subrange(from as int, i as int);
            assert(grown.drop_last() =~= bytes@.subrange(from as int, i - 1));
            assert(out@ =~= old(out)@ + hex_column(grown));
        }
    }
}

fn push_gutter(out: &mut String, bytes: &[u8], from: usize, to: usize)
    requires
        from <= to <= bytes.len(),
    ensures
        final(out)@ == old(out)@ + gutter(bytes@.subrange(from as int, to as int)),
{
    let mut i: usize = from;
    assert(out@ =~= old(out)@ + gutter(bytes@.subrange(from as int, from as int)));
    while i < to
        invariant
            from <= i <= to <= bytes.len(),
            out@ == old(out)@ + gutter(bytes@.subrange(from as int, i as int)),
        decreases to - i,
    {
        let b: u8 = bytes[i];
        if 0x20 <= b && b <= 0x7e {
            out.push(b as char);
        } else {
            out.push('.');
        }
        i = i + 1;
        assert(out@ =~= old(out)@ + gutter(bytes@.subrange(from as int, i as int)));
    }
}

fn push_row(out: &mut String, bytes: &[u8], offset: usize)
    requires
        offset < bytes.len(),
        offset as int % 16 == 0,
    ensures
        final(out)@ == old(out)@ + row_text(
            offset as nat,
            row_bytes(bytes@, offset as int / 16),
        ),
{
    let end: usize = if bytes.len() - offset >= 16 {
        offset + 16
    } else {
        bytes.len()
    };
    assert(row_bytes(bytes@, offset as int / 16) =~= bytes@.subrange(offset as int, end as int));
    push_text(out, "  ");
    push_padded(out, offset as u64, 16, 4);
    push_text(out, ": ");
    push_hex(out, bytes, offset, end);
    push_repeated(out, ' ', 48 - 3 * (end - offset));
    push_text(out, "|");
    push_gutter(out, bytes, offset, end);
    push_text(out, "|\n");
    assert(out@ =~= old(out)@ + row_text(
        offset as nat,
        bytes@.subrange(offset as int, end as int),
    ));
}

/// Renders `bytes` in hexadecimal beside the printable ones as text.
pub fn render_dump(bytes: &[u8]) -> (r: String)
    ensures
        r@ == dump_text(bytes@),
{
    let mut out = String::new();
    let mut offset: usize = 0;
    while offset < bytes.len()
        invariant
            offset <= bytes.len(),
            offset as int % 16 == 0 || offset == bytes.len(),
            out@ == rows_text(bytes@, ((offset + 15) / 16) as nat),
        decreases bytes.len() - offset,
    {
        push_row(&mut out, bytes, offset);
        let step: usize = if bytes.len() - offset >= 16 {
            16
        } else {
            bytes.len() - offset
        };
        offset = offset + step;
    }
    out
}

/// Every byte is shown in hexadecimal, two digits and a space, in its order.
pub proof fn every_byte_is_shown_in_hexadecimal(bytes: Seq<u8>, i: int)
    requires
        0 <= i < bytes.len(),
    ensures
        ({
            let column = hex_column(bytes);
            &&& column.len() == 3 * bytes.len()
            &&& text::digit_value(column[3 * i]) * 16 + text::digit_value(column[3 * i + 1])
                == bytes[i]
            &&& column[3 * i + 2] == ' '
        }),
    decreases bytes.len(),
{
    let front = bytes.drop_last();
    the_column_has_three_characters_a_byte(front);
    if i < front.len() {
        every_byte_is_shown_in_hexadecimal(front, i);
    }
}

proof fn the_column_has_three_characters_a_byte(bytes: Seq<u8>)
    ensures
        hex_column(bytes).len() == 3 * bytes.len(),
    decreases bytes.len(),
{
    if bytes.len() > 0 {
        the_column_has_three_characters_a_byte(bytes.drop_last());
    }
}

/// Every byte stands in the gutter, as itself where it is a printable character and as
/// a dot where it is not.
pub proof fn every_byte_stands_in_the_gutter(bytes: Seq<u8>, i: int)
    requires
        0 <= i < bytes.len(),
    ensures
        gutter(bytes).len() == bytes.len(),
        0x20 <= bytes[i] <= 0x7e ==> gutter(bytes)[i] as int == bytes[i],
        bytes[i] < 0x20 || bytes[i] > 0x7e ==> gutter(bytes)[i] == '.',
{
}

/// A dump is row after row of sixteen bytes, the last with what is left. Each row shows
/// the offset of its first byte, its bytes in hexadecimal in a column of fixed width,
/// and the gutter.
pub proof fn a_dump_is_row_after_row(bytes: Seq<u8>, more: Seq<u8>)
    requires
        bytes.len() % 16 == 0,
        0 < more.len() <= 16,
    ensures
        dump_text(Seq::<u8>::empty()) == Seq::<char>::empty(),
        dump_text(bytes + more) == dump_text(bytes) + "  "@ + text::padded_numeral(
            bytes.len() as nat,
            16,
            4,
        ) + ": "@ + hex_column(more) + text::repeated(' ', 48 - 3 * more.len()) + "|"@ + gutter(
            more,
        ) + "|\n"@,
{
    let whole = bytes + more;
    let rows = bytes.len() / 16;
    assert((bytes.len() + 15) / 16 == rows);
    assert((whole.len() + 15) / 16 == rows + 1);
    rows_do_not_look_ahead(bytes, more, rows);
    assert(row_bytes(whole, rows as int) =~= more);
    assert(rows_text(whole, rows + 1) == rows_text(whole, rows) + row_text(
        (rows * 16) as nat,
        more,
    ));
    assert(dump_text(whole) =~= dump_text(bytes) + "  "@ + text::padded_numeral(
        bytes.len() as nat,
        16,
        4,
    ) + ": "@ + hex_column(more) + text::repeated(' ', 48 - 3 * more.len()) + "|"@ + gutter(more)
        + "|\n"@);
}

proof fn rows_do_not_look_ahead(bytes: Seq<u8>, more: Seq<u8>, rows: nat)
    requires
        rows * 16 <= bytes.len(),
    ensures
        rows_text(bytes + more, rows) == rows_text(bytes, rows),
    decreases rows,
{
    if rows > 0 {
        let fewer = (rows - 1) as nat;
        rows_do_not_look_ahead(bytes, more, fewer);
        assert(row_bytes(bytes + more, fewer as int) =~= row_bytes(bytes, fewer as int));
    }
}

} // verus!
