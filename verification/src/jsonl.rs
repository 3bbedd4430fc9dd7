//! The envelope of an event line: a stamp, the event's name, then its fields.
//!
//! Every program of the host that narrates itself writes its lines in this shape,
//! so that a reader can rely on the two leading keys.

use vstd::prelude::*;

use crate::json::{self, push_count_field, push_string_field, Body, Field, Leaf};
use crate::text::{chars_of, push_text, same_text};

verus! {

/// `std::time::SystemTime`, a reading of the wall clock.
#[verifier::external_type_specification]
#[verifier::external_body]
pub struct ExSystemTime(std::time::SystemTime);

/// The two keys that lead every line.
pub open spec fn lead(ts_ms: u64, event: Seq<char>) -> Body {
    seq![("ts_ms"@, Field::Leaf(Leaf::UInt(ts_ms))), ("event"@, Field::Leaf(Leaf::Str(event)))]
}

/// The line that stands for an event whose fields cannot be written.
pub open spec fn encode_error_body(ts_ms: u64, event: Seq<char>, detail: Seq<char>) -> Body {
    seq![
        ("detail"@, Field::Leaf(Leaf::Str(detail))),
        ("event"@, Field::Leaf(Leaf::Str("jsonl_encode_error"@))),
        ("target"@, Field::Leaf(Leaf::Str(event))),
        ("ts_ms"@, Field::Leaf(Leaf::UInt(ts_ms))),
    ]
}

/// `text` is in the brackets of an object.
pub open spec fn is_bracketed(text: Seq<char>) -> bool {
    text.len() >= 2 && text[0] == '{' && text.last() == '}'
}

/// A line whose event has the fields written between the brackets of `object`.
pub open spec fn spliced(ts_ms: u64, event: Seq<char>, object: Seq<char>) -> Seq<char> {
    let front = json::body_text(lead(ts_ms, event)).drop_last();
    if object.len() <= 2 {
        front.push('}')
    } else {
        front + seq![','] + object.skip(1)
    }
}

/// The text holds a character of a fraction or of an exponent.
pub open spec fn is_broken_number(text: Seq<char>) -> bool {
    exists|i: int| 0 <= i < text.len() && is_fraction_mark(#[trigger] text[i])
}

/// A mark that only a number with a fraction or an exponent has.
pub open spec fn is_fraction_mark(c: char) -> bool {
    c == '.' || c == 'e' || c == 'E'
}

/// What a JSON text that is neither an object nor `null` holds, as its first
/// character and its form tell it.
pub open spec fn sort_of(text: Seq<char>) -> Seq<char> {
    if text.len() > 0 && text[0] == '"' {
        "a string"@
    } else if text.len() > 0 && text[0] == '[' {
        "a sequence"@
    } else if text.len() > 0 && (text[0] == 't' || text[0] == 'f') {
        "a boolean"@
    } else if is_broken_number(text) {
        "a float"@
    } else {
        "an integer"@
    }
}

/// Why fields that are no object cannot be spread.
pub open spec fn flatten_error(text: Seq<char>) -> Seq<char> {
    "can only flatten structs and maps (got "@ + sort_of(text) + ")"@
}

/// The line of an event, given what became of its fields: their JSON text, or why
/// there is none. An object is spread behind the two leading keys, and `null` has
/// nothing to spread. Anything else has no keys and cannot be spread: the line then
/// says so and names the event that was lost.
pub open spec fn line_text(
    ts_ms: u64,
    event: Seq<char>,
    fields: Result<Seq<char>, Seq<char>>,
) -> Seq<char> {
    match fields {
        Ok(object) => if is_bracketed(object) {
            spliced(ts_ms, event, object)
        } else if object == "null"@ {
            json::body_text(lead(ts_ms, event))
        } else {
            json::body_text(encode_error_body(ts_ms, event, flatten_error(object)))
        },
        Err(detail) => json::body_text(encode_error_body(ts_ms, event, detail)),
    }
}

fn push_lead(out: &mut String, ts_ms: u64, event: &str)
    ensures
        final(out)@ == old(out)@ + json::body_text(lead(ts_ms, event@)).drop_last(),
{
    out.push('{');
    push_count_field(out, "ts_ms", ts_ms);
    out.push(',');
    push_string_field(out, "event", event);
    proof {
        let body = lead(ts_ms, event@);
        let a = json::pair_text("ts_ms"@, json::field_text(body[0].1));
        let b = json::pair_text("event"@, json::field_text(body[1].1));
        assert(body.map_values(
            |f: (Seq<char>, Field)| json::pair_text(f.0, json::field_text(f.1)),
        ) =~= seq![a, b]);
        json::comma_joined_two(a, b);
        assert(out@ =~= old(out)@ + json::body_text(body).drop_last());
    }
}

fn encode_error_line(ts_ms: u64, event: &str, detail: &str) -> (r: String)
    ensures
        r@ == json::body_text(encode_error_body(ts_ms, event@, detail@)),
{
    let mut out = String::new();
    out.push('{');
    push_string_field(&mut out, "detail", detail);
    out.push(',');
    push_string_field(&mut out, "event", "jsonl_encode_error");
    out.push(',');
    push_string_field(&mut out, "target", event);
    out.push(',');
    push_count_field(&mut out, "ts_ms", ts_ms);
    out.push('}');
    proof {
        let body = encode_error_body(ts_ms, event@, detail@);
        let a = json::pair_text("detail"@, json::field_text(body[0].1));
        let b = json::pair_text("event"@, json::field_text(body[1].1));
        let c = json::pair_text("target"@, json::field_text(body[2].1));
        let d = json::pair_text("ts_ms"@, json::field_text(body[3].1));
        assert(body.map_values(
            |f: (Seq<char>, Field)| json::pair_text(f.0, json::field_text(f.1)),
        ) =~= seq![a, b, c, d]);
        json::comma_joined_four(a, b, c, d);
        assert(out@ =~= json::body_text(body));
    }
    out
}

/// What a JSON text holds.
fn sort_name(chars: &Vec<char>) -> (r: &'static str)
    ensures
        r@ == sort_of(chars@),
{
    if chars.len() > 0 {
        let lead = chars[0];
        if lead == '"' {
            return "a string";
        }
        if lead == '[' {
            return "a sequence";
        }
        if lead == 't' || lead == 'f' {
            return "a boolean";
        }
    }
    let mut i: usize = 0;
    while i < chars.len()
        invariant
            i <= chars.len(),
            !(chars@.len() > 0 && chars@[0] == '"'),
            !(chars@.len() > 0 && chars@[0] == '['),
            !(chars@.len() > 0 && (chars@[0] == 't' || chars@[0] == 'f')),
            forall|k: int| 0 <= k < i ==> !is_fraction_mark(#[trigger] chars@[k]),
        decreases chars.len() - i,
    {
        let c = chars[i];
        if c == '.' || c == 'e' || c == 'E' {
            assert(is_fraction_mark(chars@[i as int]));
            return "a float";
        }
        i = i + 1;
    }
    "an integer"
}

/// What the fields of an event became, as mathematical values.
pub open spec fn fields_view(fields: Result<String, String>) -> Result<Seq<char>, Seq<char>> {
    match fields {
        Ok(text) => Ok(text@),
        Err(detail) => Err(detail@),
    }
}

/// One event in the envelope, at the caller's stamp. `fields` is the JSON text of
/// the event's fields, or why they could not be written. An event whose fields
/// cannot be spread still gets a line, one that names it.
pub fn format_line_at(ts_ms: u64, event: &str, fields: &Result<String, String>) -> (r: String)
    ensures
        r@ == line_text(ts_ms, event@, fields_view(*fields)),
{
    match fields {
        Ok(object) => {
            let chars = chars_of(object.as_str());
            let len: usize = chars.len();
            if len >= 2 && chars[0] == '{' && chars[len - 1] == '}' {
                let mut out = String::new();
                push_lead(&mut out, ts_ms, event);
                if len == 2 {
                    out.push('}');
                } else {
                    out.push(',');
                    let mut i: usize = 1;
                    let ghost front = out@;
                    assert(out@ =~= front + chars@.subrange(1, 1));
                    while i < len
                        invariant
                            1 <= i <= len,
                            len == chars.len(),
                            out@ == front + chars@.subrange(1, i as int),
                        decreases len - i,
                    {
                        out.push(chars[i]);
                        i = i + 1;
                        assert(out@ =~= front + chars@.subrange(1, i as int));
                    }
                    assert(chars@.subrange(1, len as int) =~= chars@.skip(1));
                }
                assert(out@ =~= line_text(ts_ms, event@, fields_view(*fields)));
                return out;
            }
            if same_text(object.as_str(), "null") {
                let mut out = String::new();
                push_lead(&mut out, ts_ms, event);
                out.push('}');
                assert(out@ =~= json::body_text(lead(ts_ms, event@)));
                return out;
            }
            let mut detail = String::new();
            push_text(&mut detail, "can only flatten structs and maps (got ");
            push_text(&mut detail, sort_name(&chars));
            push_text(&mut detail, ")");
            assert(detail@ =~= flatten_error(object@));
            encode_error_line(ts_ms, event, detail.as_str())
        },
        Err(detail) => encode_error_line(ts_ms, event, detail.as_str()),
    }
}

/// An event's fields stand in its line behind the two leading keys, each as it
/// would stand in an object of its own.
pub proof fn the_envelope_spreads_its_fields(ts_ms: u64, event: Seq<char>, fields: Body)
    ensures
        line_text(ts_ms, event, Ok(json::body_text(fields))) == json::body_text(
            lead(ts_ms, event) + fields,
        ),
{
    let pair = |f: (Seq<char>, Field)| json::pair_text(f.0, json::field_text(f.1));
    let front = lead(ts_ms, event);
    let object = json::body_text(fields);
    let inner = fields.map_values(pair);
    let all = (front + fields).map_values(pair);
    assert(all =~= front.map_values(pair) + inner);
    json::comma_joined_splits(front.map_values(pair), inner);
    assert(is_bracketed(object));
    if fields.len() == 0 {
        assert(front + fields =~= front);
        assert(spliced(ts_ms, event, object) =~= json::body_text(front));
    } else {
        json::a_pair_is_not_empty(fields[0].0, json::field_text(fields[0].1));
        assert(inner[0] == json::pair_text(fields[0].0, json::field_text(fields[0].1)));
        json::comma_joined_holds_its_first(inner);
        assert(object.skip(1) =~= json::comma_joined(inner).push('}'));
        assert(spliced(ts_ms, event, object) =~= json::body_text(front + fields));
    }
}

/// The wall clock now. Calls `std::time::SystemTime::now`.
#[verifier::external_body]
fn wall_clock() -> (r: std::time::SystemTime) {
    std::time::SystemTime::now()
}

/// The span from the UNIX epoch to `reading`, `None` where it lies before the epoch.
/// Calls `std::time::SystemTime::duration_since`. What a reading holds is not visible
/// here, so nothing is claimed of the span.
#[verifier::external_body]
fn since_epoch(reading: std::time::SystemTime) -> (r: Option<std::time::Duration>) {
    match reading.duration_since(std::time::UNIX_EPOCH) {
        Ok(since) => Some(since),
        Err(_) => None,
    }
}

/// The whole milliseconds of a span. Calls `std::time::Duration::as_millis`. What a
/// span holds is not visible here, so nothing is claimed of the number.
#[verifier::external_body]
fn whole_millis(span: std::time::Duration) -> (r: u128) {
    span.as_millis()
}

/// The stamp of a clock reading, given the milliseconds since the epoch: 0 for a
/// reading before it, since a stamp is never a reason to refuse a line.
pub fn stamp_of(since_epoch: Option<u128>) -> (r: u64)
    ensures
        r == match since_epoch {
            Some(ms) => ms as u64,
            None => 0,
        },
{
    match since_epoch {
        Some(ms) => #[verifier::truncate] (ms as u64),
        None => 0,
    }
}

/// Milliseconds since the UNIX epoch, or 0 on a clock that reads before it. The
/// clock decides the number.
pub fn now_ms() -> (r: u64) {
    let millis = match since_epoch(wall_clock()) {
        Some(span) => Some(whole_millis(span)),
        None => None,
    };
    stamp_of(millis)
}

/// Every line leads with its stamp and then its event.
pub proof fn a_line_leads_with_stamp_and_event(ts_ms: u64, event: Seq<char>)
    ensures
        lead(ts_ms, event) == seq![
            ("ts_ms"@, Field::Leaf(Leaf::UInt(ts_ms))),
            ("event"@, Field::Leaf(Leaf::Str(event))),
        ],
        line_text(ts_ms, event, Ok("null"@)) == json::body_text(lead(ts_ms, event)),
        line_text(ts_ms, event, Ok(seq!['{', '}'])) == json::body_text(lead(ts_ms, event)),
{
    reveal_strlit("null");
    let front = json::body_text(lead(ts_ms, event));
    assert(front.drop_last().push('}') =~= front);
}

/// An event whose fields are lost still gets a line: it names the event that was lost,
/// when, and why.
pub proof fn a_lost_event_is_named(
    ts_ms: u64,
    event: Seq<char>,
    detail: Seq<char>,
    text: Seq<char>,
)
    ensures
        line_text(ts_ms, event, Err(detail)) == json::body_text(
            seq![
                ("detail"@, Field::Leaf(Leaf::Str(detail))),
                ("event"@, Field::Leaf(Leaf::Str("jsonl_encode_error"@))),
                ("target"@, Field::Leaf(Leaf::Str(event))),
                ("ts_ms"@, Field::Leaf(Leaf::UInt(ts_ms))),
            ],
        ),
        (text.len() < 2 || text[0] != '{' || text[text.len() - 1] != '}') && text != "null"@
            ==> line_text(ts_ms, event, Ok(text)) == line_text(
            ts_ms,
            event,
            Err("can only flatten structs and maps (got "@ + sort_of(text) + ")"@),
        ),
{
}

/// What fields are, where they are no object, is told by their first character, and a
/// number with a fraction or an exponent is told from a whole one.
pub proof fn what_fields_are_is_told_by_their_form(text: Seq<char>)
    requires
        text.len() > 0,
    ensures
        text[0] == '"' ==> sort_of(text) == "a string"@,
        text[0] == '[' ==> sort_of(text) == "a sequence"@,
        text[0] == 't' || text[0] == 'f' ==> sort_of(text) == "a boolean"@,
        text[0] != '"' && text[0] != '[' && text[0] != 't' && text[0] != 'f' ==> {
            if exists|i: int|
                0 <= i < text.len() && ((#[trigger] text[i]) == '.' || text[i] == 'e' || text[i]
                    == 'E') {
                sort_of(text) == "a float"@
            } else {
                sort_of(text) == "an integer"@
            }
        },
{
    if exists|i: int|
        0 <= i < text.len() && ((#[trigger] text[i]) == '.' || text[i] == 'e' || text[i] == 'E') {
        let i = choose|i: int|
            0 <= i < text.len() && ((#[trigger] text[i]) == '.' || text[i] == 'e' || text[i]
                == 'E');
        assert(is_fraction_mark(text[i]));
    }
}

/// Fields are spread as they were written: what stood between their brackets stands
/// behind the event, with a comma in front.
pub proof fn fields_are_spread_as_written(
    ts_ms: u64,
    event: Seq<char>,
    inner: Seq<char>,
    text: String,
    detail: String,
)
    requires
        inner.len() > 0,
    ensures
        line_text(ts_ms, event, Ok(seq!['{'] + inner + seq!['}'])) == json::body_text(
            lead(ts_ms, event),
        ).drop_last() + seq![','] + inner + seq!['}'],
        fields_view(Ok(text)) == Ok::<Seq<char>, Seq<char>>(text@),
        fields_view(Err(detail)) == Err::<Seq<char>, Seq<char>>(detail@),
{
    let object = seq!['{'] + inner + seq!['}'];
    assert(object.skip(1) =~= inner + seq!['}']);
    let front = json::body_text(lead(ts_ms, event)).drop_last();
    assert(front + seq![','] + object.skip(1) =~= front + seq![','] + inner + seq!['}']);
}

} // verus!
