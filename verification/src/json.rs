//! JSON text, as the bus and the logs carry it.
//!
//! Reading goes through a parsed value whose content is the mathematical
//! [`Json`]. Writing builds the text itself, so that its form is exact: the
//! bodies on the bus are [`Body`] values, an object of numbers, strings and lists
//! of flat objects.

use vstd::prelude::*;

use crate::text::{self, chars_of, push_decimal, push_text, same_text};

verus! {

/// The content of a parsed JSON value.
pub enum Json {
    /// `null`.
    Null,
    /// A truth value.
    Bool(bool),
    /// A number that is a count.
    UInt(u64),
    /// A whole number below zero.
    Int(i64),
    /// Any other number, as it is written out.
    Float(Seq<char>),
    /// A string.
    Str(Seq<char>),
    /// A list.
    Arr(Seq<Json>),
    /// An object; of a key that occurs twice the last value counts.
    Obj(Map<Seq<char>, Json>),
}

/// `serde_json::Value`, a parsed JSON value.
#[verifier::external_type_specification]
#[verifier::external_body]
pub struct ExValue(serde_json::Value);

/// The content of a parsed value.
pub uninterp spec fn json_of(value: serde_json::Value) -> Json;

/// What `serde_json::from_str` makes of a text: its content, or what it says is
/// wrong.
pub uninterp spec fn parsed(text: Seq<char>) -> Result<Json, Seq<char>>;

/// A character inside a JSON string.
pub open spec fn quoted_char(c: char) -> Seq<char> {
    if c == '"' {
        seq!['\\', '"']
    } else if c == '\\' {
        seq!['\\', '\\']
    } else if c == '\u{8}' {
        seq!['\\', 'b']
    } else if c == '\t' {
        seq!['\\', 't']
    } else if c == '\n' {
        seq!['\\', 'n']
    } else if c == '\u{c}' {
        seq!['\\', 'f']
    } else if c == '\r' {
        seq!['\\', 'r']
    } else if (c as nat) < 0x20 {
        seq!['\\', 'u'] + text::padded_numeral(c as nat, 16, 4)
    } else {
        seq![c]
    }
}

/// The characters of `text` inside a JSON string.
pub open spec fn quoted_chars(text: Seq<char>) -> Seq<char>
    decreases text.len(),
{
    if text.len() == 0 {
        seq![]
    } else {
        quoted_chars(text.drop_last()) + quoted_char(text.last())
    }
}

/// `text` as a JSON string.
pub open spec fn quoted(text: Seq<char>) -> Seq<char> {
    seq!['"'] + quoted_chars(text) + seq!['"']
}

/// `text` as a JSON string. Calls `serde_json::to_string`, which for text cannot
/// fail and escapes quotes, backslashes and the control characters below the
/// space, five of them by a letter.
#[verifier::external_body]
fn quote(text: &str) -> (r: String)
    ensures
        r@ == quoted(text@),
{
    serde_json::to_string(text).expect("text always has a JSON form")
}

/// A number or a string.
pub enum Leaf {
    /// A count.
    UInt(u64),
    /// A string.
    Str(Seq<char>),
}

/// An object whose fields are numbers and strings, in the order of its text.
pub type Flat = Seq<(Seq<char>, Leaf)>;

/// A field of a body.
pub enum Field {
    /// A number or a string.
    Leaf(Leaf),
    /// A list of flat objects.
    List(Seq<Flat>),
}

/// A body on the bus: an object, its fields in the order of its text.
pub type Body = Seq<(Seq<char>, Field)>;

/// The text of a number or a string.
pub open spec fn leaf_text(leaf: Leaf) -> Seq<char> {
    match leaf {
        Leaf::UInt(n) => text::decimal(n as nat),
        Leaf::Str(s) => quoted(s),
    }
}

/// A key and its value.
pub open spec fn pair_text(key: Seq<char>, value: Seq<char>) -> Seq<char> {
    quoted(key) + seq![':'] + value
}

/// `items` with a comma between two of them.
pub open spec fn comma_joined(items: Seq<Seq<char>>) -> Seq<char>
    decreases items.len(),
{
    if items.len() == 0 {
        seq![]
    } else if items.len() == 1 {
        items[0]
    } else {
        comma_joined(items.drop_last()) + seq![','] + items.last()
    }
}

/// The text of a flat object.
pub open spec fn flat_text(flat: Flat) -> Seq<char> {
    seq!['{'] + comma_joined(
        flat.map_values(|f: (Seq<char>, Leaf)| pair_text(f.0, leaf_text(f.1))),
    ) + seq!['}']
}

/// The text of a field's value.
pub open spec fn field_text(field: Field) -> Seq<char> {
    match field {
        Field::Leaf(leaf) => leaf_text(leaf),
        Field::List(items) => seq!['['] + comma_joined(
            items.map_values(|flat: Flat| flat_text(flat)),
        ) + seq![']'],
    }
}

/// The text of a body, without any space.
pub open spec fn body_text(body: Body) -> Seq<char> {
    seq!['{'] + comma_joined(
        body.map_values(|f: (Seq<char>, Field)| pair_text(f.0, field_text(f.1))),
    ) + seq!['}']
}

/// No key occurs twice.
pub open spec fn keys_differ<V>(fields: Seq<(Seq<char>, V)>) -> bool {
    forall|i: int, j: int|
        0 <= i < j < fields.len() ==> (#[trigger] fields[i]).0 != (#[trigger] fields[j]).0
}

/// No object in the body has a key twice.
pub open spec fn is_proper(body: Body) -> bool {
    &&& keys_differ(body)
    &&& forall|i: int, j: int|
        0 <= i < body.len() && (body[i].1 matches Field::List(items) && 0 <= j < items.len())
            ==> keys_differ(#[trigger] body[i].1->List_0[j])
}

/// The content of a number or a string.
pub open spec fn leaf_json(leaf: Leaf) -> Json {
    match leaf {
        Leaf::UInt(n) => Json::UInt(n),
        Leaf::Str(s) => Json::Str(s),
    }
}

/// The content of a flat object.
pub open spec fn flat_json(flat: Flat) -> Map<Seq<char>, Json>
    decreases flat.len(),
{
    if flat.len() == 0 {
        Map::empty()
    } else {
        flat_json(flat.drop_last()).insert(flat.last().0, leaf_json(flat.last().1))
    }
}

/// The content of a field.
pub open spec fn field_json(field: Field) -> Json {
    match field {
        Field::Leaf(leaf) => leaf_json(leaf),
        Field::List(items) => Json::Arr(items.map_values(|flat: Flat| Json::Obj(flat_json(flat)))),
    }
}

/// The content of a body.
pub open spec fn body_json(body: Body) -> Map<Seq<char>, Json>
    decreases body.len(),
{
    if body.len() == 0 {
        Map::empty()
    } else {
        body_json(body.drop_last()).insert(body.last().0, field_json(body.last().1))
    }
}

/// What reading a text came to: its content, or what is wrong with it.
pub open spec fn content(read: Result<serde_json::Value, String>) -> Result<Json, Seq<char>> {
    match read {
        Ok(value) => Ok(json_of(value)),
        Err(why) => Err(why@),
    }
}

/// A text that is the text of a body, none of whose objects has a key twice, was
/// read as the content of that body.
pub open spec fn reads_back(text: Seq<char>, read: Result<serde_json::Value, String>) -> bool {
    forall|body: Body|
        is_proper(body) && text == #[trigger] body_text(body) ==> (read matches Ok(value)
            && json_of(value) == Json::Obj(body_json(body)))
}

/// Parses a JSON text. Calls `serde_json::from_str`; what it makes of a text goes
/// by the name [`parsed`]. One fact of it is stated: the text of a body whose
/// objects have no key twice parses to the content of that body.
#[verifier::external_body]
pub(crate) fn parse(text: &str) -> (r: Result<serde_json::Value, String>)
    ensures
        match parsed(text@) {
            Ok(json) => r matches Ok(value) && json_of(value) == json,
            Err(why) => r matches Err(said) && said@ == why,
        },
        reads_back(text@, r),
{
    match serde_json::from_str(text) {
        Ok(value) => Ok(value),
        Err(error) => Err(error.to_string()),
    }
}

/// The value under `key`. Calls `serde_json::Value::get`, which finds it in an
/// object and finds nothing anywhere else.
#[verifier::external_body]
pub(crate) fn get<'a>(value: &'a serde_json::Value, key: &str) -> (r: Option<&'a serde_json::Value>)
    ensures
        match json_of(*value) {
            Json::Obj(fields) => if fields.dom().contains(key@) {
                r matches Some(found) && json_of(*found) == fields[key@]
            } else {
                r is None
            },
            _ => r is None,
        },
{
    value.get(key)
}

/// The text of a string. Calls `serde_json::Value::as_str`.
#[verifier::external_body]
pub(crate) fn as_text(value: &serde_json::Value) -> (r: Option<&str>)
    ensures
        match json_of(*value) {
            Json::Str(s) => r matches Some(found) && found@ == s,
            _ => r is None,
        },
{
    value.as_str()
}

/// How `serde_json::from_value` describes a value it complains about, by its sort and
/// where there is one by what it holds.
pub uninterp spec fn described(value: Json) -> Seq<char>;

/// A complaint about what was found where something else was expected.
pub open spec fn complaint(kind: Seq<char>, found: Seq<char>, expected: Seq<char>) -> Seq<char> {
    "invalid "@ + kind + ": "@ + found + ", expected "@ + expected
}

/// The complaint about a value that is not `expected` at all.
pub open spec fn type_refusal(value: Json, expected: Seq<char>) -> Seq<char> {
    complaint("type"@, described(value), expected)
}

/// The complaint about a value that is of the right sort and not `expected`.
pub open spec fn value_refusal(value: Json, expected: Seq<char>) -> Seq<char> {
    complaint("value"@, described(value), expected)
}

/// Reads a string. Calls `serde_json::from_value` for a `String`, which takes a
/// string and complains about anything else; how it describes a value in the
/// complaint goes by the name [`described`].
#[verifier::external_body]
pub(crate) fn read_text(value: &serde_json::Value) -> (r: Result<String, String>)
    ensures
        match json_of(*value) {
            Json::Str(s) => r matches Ok(found) && found@ == s,
            other => r matches Err(said) && said@ == complaint(
                "type"@,
                described(other),
                "a string"@,
            ),
        },
{
    serde_json::from_value::<String>(value.clone()).map_err(|error| error.to_string())
}

/// Reads a count. Calls `serde_json::from_value` for a `u64`, which takes a number
/// that is a count, calls a whole number below zero a wrong value and anything else
/// a wrong type.
#[verifier::external_body]
pub(crate) fn read_count(value: &serde_json::Value) -> (r: Result<u64, String>)
    ensures
        match json_of(*value) {
            Json::UInt(n) => r == Ok::<u64, String>(n),
            Json::Int(n) => r matches Err(said) && said@ == complaint(
                "value"@,
                described(Json::Int(n)),
                "u64"@,
            ),
            other => r matches Err(said) && said@ == complaint(
                "type"@,
                described(other),
                "u64"@,
            ),
        },
{
    serde_json::from_value::<u64>(value.clone()).map_err(|error| error.to_string())
}

/// Reads a list. Calls `serde_json::from_value` for a vector of values, which takes a
/// list and complains about anything else.
#[verifier::external_body]
pub(crate) fn read_list(value: &serde_json::Value) -> (r: Result<Vec<serde_json::Value>, String>)
    ensures
        match json_of(*value) {
            Json::Arr(items) => r matches Ok(found) && found@.map_values(
                |v: serde_json::Value| json_of(v),
            ) == items,
            other => r matches Err(said) && said@ == complaint(
                "type"@,
                described(other),
                "a sequence"@,
            ),
        },
{
    serde_json::from_value::<Vec<serde_json::Value>>(value.clone())
        .map_err(|error| error.to_string())
}

/// Reads `null`. Calls `serde_json::from_value` for the unit value, which takes
/// `null` and complains about anything else.
#[verifier::external_body]
pub(crate) fn read_unit(value: &serde_json::Value) -> (r: Result<(), String>)
    ensures
        match json_of(*value) {
            Json::Null => r is Ok,
            other => r matches Err(said) && said@ == complaint(
                "type"@,
                described(other),
                "unit"@,
            ),
        },
{
    serde_json::from_value::<()>(value.clone()).map_err(|error| error.to_string())
}

/// The keys of an object. Calls `serde_json::Value::as_object` and
/// `serde_json::Map::keys`, which hands out every key once.
#[verifier::external_body]
pub(crate) fn keys(value: &serde_json::Value) -> (r: Option<Vec<String>>)
    ensures
        match json_of(*value) {
            Json::Obj(fields) => r matches Some(names) && text::texts(names@).no_duplicates()
                && text::texts(names@).to_set() == fields.dom(),
            _ => r is None,
        },
{
    value.as_object().map(|fields| fields.keys().cloned().collect())
}

/// A complaint with another expectation: `tail` at its end gives way to `expected`.
pub(crate) fn expecting(said: &str, tail: &str, expected: &str) -> (r: String)
    requires
        said@.len() >= tail@.len(),
    ensures
        r@ == said@.take(said@.len() - tail@.len()) + expected@,
{
    let chars = chars_of(said);
    let kept: usize = chars.len() - chars_of(tail).len();
    let mut out = String::new();
    let mut i: usize = 0;
    assert(out@ =~= said@.take(0));
    while i < kept
        invariant
            i <= kept <= chars.len(),
            chars@ == said@,
            out@ == said@.take(i as int),
        decreases kept - i,
    {
        out.push(chars[i]);
        i = i + 1;
        assert(out@ =~= said@.take(i as int));
    }
    push_text(&mut out, expected);
    out
}

/// Which of two names `name` is: the first, or the second.
pub open spec fn spelled(name: Seq<char>, first: Seq<char>, second: Seq<char>) -> Result<
    bool,
    Seq<char>,
> {
    if name == first {
        Ok(true)
    } else if name == second {
        Ok(false)
    } else {
        Err(
            "unknown variant `"@ + name + "`, expected `"@ + first + "` or `"@ + second + "`"@,
        )
    }
}

/// Which of two names a value spells, the first or the second: as a string, or as
/// the one key of an object that has nothing under it.
pub open spec fn choice_in(value: Json, first: Seq<char>, second: Seq<char>) -> Result<
    bool,
    Seq<char>,
> {
    match value {
        Json::Str(name) => spelled(name, first, second),
        Json::Obj(fields) => if fields.dom().len() != 1 {
            Err("invalid value: map, expected map with a single key"@)
        } else {
            let name = fields.dom().choose();
            match spelled(name, first, second) {
                Ok(which) => if fields[name] is Null {
                    Ok(which)
                } else {
                    Err(type_refusal(fields[name], "unit"@))
                },
                Err(detail) => Err(detail),
            }
        },
        _ => Err(type_refusal(value, "string or map"@)),
    }
}

/// What reading came to, its complaint as mathematical text.
pub open spec fn outcome<T>(read: Result<T, String>) -> Result<T, Seq<char>> {
    match read {
        Ok(found) => Ok(found),
        Err(said) => Err(said@),
    }
}

fn read_spelled(name: &str, first: &str, second: &str) -> (r: Result<bool, String>)
    ensures
        outcome(r) == spelled(name@, first@, second@),
{
    if same_text(name, first) {
        return Ok(true);
    }
    if same_text(name, second) {
        return Ok(false);
    }
    let mut said = String::new();
    push_text(&mut said, "unknown variant `");
    push_text(&mut said, name);
    push_text(&mut said, "`, expected `");
    push_text(&mut said, first);
    push_text(&mut said, "` or `");
    push_text(&mut said, second);
    push_text(&mut said, "`");
    Err(said)
}

/// Which of two names a value spells.
pub(crate) fn read_choice(value: &serde_json::Value, first: &str, second: &str) -> (r: Result<
    bool,
    String,
>)
    ensures
        outcome(r) == choice_in(json_of(*value), first@, second@),
{
    let names = match keys(value) {
        Some(names) => names,
        None => {
            return match read_text(value) {
                Ok(name) => read_spelled(name.as_str(), first, second),
                Err(said) => {
                    proof {
                        let front = complaint("type"@, described(json_of(*value)), seq![]);
                        assert(said@ =~= front + "a string"@);
                        assert(said@.take(said@.len() - "a string"@.len()) =~= front);
                    }
                    Err(expecting(said.as_str(), "a string", "string or map"))
                },
            };
        },
    };
    let ghost fields = json_of(*value)->Obj_0;
    proof {
        text::texts(names@).unique_seq_to_set();
    }
    if names.len() != 1 {
        return Err("invalid value: map, expected map with a single key".to_owned());
    }
    let name = names[0].as_str();
    proof {
        assert(text::texts(names@)[0] == name@);
        assert(text::texts(names@).contains(name@));
        assert(fields.dom().contains(name@));
        assert(fields.dom().contains(fields.dom().choose()));
        assert(text::texts(names@).contains(fields.dom().choose()));
    }
    match read_spelled(name, first, second) {
        Err(said) => Err(said),
        Ok(which) => match get(value, name) {
            Some(under) => match read_unit(under) {
                Ok(()) => Ok(which),
                Err(said) => Err(said),
            },
            None => Ok(which),
        },
    }
}

/// Appends `text` as a JSON string.
fn push_quoted(out: &mut String, text: &str)
    ensures
        final(out)@ == old(out)@ + quoted(text@),
{
    let form = quote(text);
    push_text(out, form.as_str());
}

/// Appends a key and the colon behind it.
pub(crate) fn push_key(out: &mut String, key: &str)
    ensures
        forall|value: Seq<char>|
            final(out)@ + value == old(out)@ + #[trigger] pair_text(key@, value),
{
    push_quoted(out, key);
    out.push(':');
    assert forall|value: Seq<char>| out@ + value == old(out)@ + #[trigger] pair_text(
        key@,
        value,
    ) by {
        assert(out@ + value =~= old(out)@ + pair_text(key@, value));
    }
}

/// Appends a count.
fn push_count(out: &mut String, n: u64)
    ensures
        final(out)@ == old(out)@ + leaf_text(Leaf::UInt(n)),
{
    push_decimal(out, n);
}

/// The content of a body has exactly the keys of the body, each with the content
/// of its field.
pub proof fn body_json_holds_its_fields(body: Body)
    requires
        keys_differ(body),
    ensures
        forall|i: int|
            0 <= i < body.len() ==> body_json(body).dom().contains((#[trigger] body[i]).0)
                && body_json(body)[body[i].0] == field_json(body[i].1),
        forall|key: Seq<char>|
            body_json(body).dom().contains(key) ==> exists|i: int|
                0 <= i < body.len() && (#[trigger] body[i]).0 == key,
    decreases body.len(),
{
    if body.len() > 0 {
        let front = body.drop_last();
        assert forall|i: int, j: int| 0 <= i < j < front.len() implies (#[trigger] front[i]).0 != (
        #[trigger] front[j]).0 by {
            assert(front[i] == body[i] && front[j] == body[j]);
        }
        body_json_holds_its_fields(front);
        assert forall|i: int| 0 <= i < body.len() implies body_json(body).dom().contains(
            (#[trigger] body[i]).0,
        ) && body_json(body)[body[i].0] == field_json(body[i].1) by {
            if i < front.len() {
                assert(front[i] == body[i]);
                assert(body[i].0 != body[body.len() - 1].0);
            }
        }
        assert forall|key: Seq<char>| body_json(body).dom().contains(key) implies exists|i: int|
            0 <= i < body.len() && (#[trigger] body[i]).0 == key by {
            if key == body.last().0 {
                assert(body[body.len() - 1].0 == key);
            } else {
                assert(body_json(front).dom().contains(key));
                let i = choose|i: int| 0 <= i < front.len() && (#[trigger] front[i]).0 == key;
                assert(body[i].0 == key);
            }
        }
    }
}

/// The content of a flat object has exactly the keys of the object, each with the
/// content of its field.
pub proof fn flat_json_holds_its_fields(flat: Flat)
    requires
        keys_differ(flat),
    ensures
        forall|i: int|
            0 <= i < flat.len() ==> flat_json(flat).dom().contains((#[trigger] flat[i]).0)
                && flat_json(flat)[flat[i].0] == leaf_json(flat[i].1),
    decreases flat.len(),
{
    if flat.len() > 0 {
        let front = flat.drop_last();
        assert forall|i: int, j: int| 0 <= i < j < front.len() implies (#[trigger] front[i]).0 != (
        #[trigger] front[j]).0 by {
            assert(front[i] == flat[i] && front[j] == flat[j]);
        }
        flat_json_holds_its_fields(front);
        assert forall|i: int| 0 <= i < flat.len() implies flat_json(flat).dom().contains(
            (#[trigger] flat[i]).0,
        ) && flat_json(flat)[flat[i].0] == leaf_json(flat[i].1) by {
            if i < front.len() {
                assert(front[i] == flat[i]);
                assert(flat[i].0 != flat[flat.len() - 1].0);
            }
        }
    }
}

/// A list grows by a comma and an item.
pub proof fn comma_joined_grows(items: Seq<Seq<char>>, item: Seq<char>)
    ensures
        comma_joined(items.push(item)) == if items.len() == 0 {
            item
        } else {
            comma_joined(items) + seq![','] + item
        },
{
    assert(items.push(item).drop_last() =~= items);
}

/// Four items with commas between them.
pub proof fn comma_joined_four(a: Seq<char>, b: Seq<char>, c: Seq<char>, d: Seq<char>)
    ensures
        comma_joined(seq![a, b, c, d]) == a + seq![','] + b + seq![','] + c + seq![','] + d,
{
    comma_joined_grows(seq![a], b);
    assert(seq![a].push(b) =~= seq![a, b]);
    comma_joined_grows(seq![a, b], c);
    assert(seq![a, b].push(c) =~= seq![a, b, c]);
    comma_joined_grows(seq![a, b, c], d);
    assert(seq![a, b, c].push(d) =~= seq![a, b, c, d]);
}

/// Five items with commas between them.
pub proof fn comma_joined_five(
    a: Seq<char>,
    b: Seq<char>,
    c: Seq<char>,
    d: Seq<char>,
    e: Seq<char>,
)
    ensures
        comma_joined(seq![a, b, c, d, e]) == a + seq![','] + b + seq![','] + c + seq![','] + d
            + seq![','] + e,
{
    comma_joined_four(a, b, c, d);
    comma_joined_grows(seq![a, b, c, d], e);
    assert(seq![a, b, c, d].push(e) =~= seq![a, b, c, d, e]);
}

/// Appends a field that holds a string.
pub(crate) fn push_string_field(out: &mut String, key: &str, value: &str)
    ensures
        final(out)@ == old(out)@ + pair_text(
            key@,
            field_text(Field::Leaf(Leaf::Str(value@))),
        ),
{
    push_key(out, key);
    push_quoted(out, value);
}

/// Appends a field that holds a count.
pub(crate) fn push_count_field(out: &mut String, key: &str, value: u64)
    ensures
        final(out)@ == old(out)@ + pair_text(
            key@,
            field_text(Field::Leaf(Leaf::UInt(value))),
        ),
{
    push_key(out, key);
    push_count(out, value);
}

/// Two items, joined.
pub proof fn comma_joined_two(a: Seq<char>, b: Seq<char>)
    ensures
        comma_joined(seq![a, b]) == a + seq![','] + b,
{
    comma_joined_grows(seq![a], b);
    assert(seq![a].push(b) =~= seq![a, b]);
    reveal_with_fuel(comma_joined, 2);
    assert(comma_joined(seq![a]) =~= a);
}

/// Two lists joined one after the other.
pub proof fn comma_joined_splits(a: Seq<Seq<char>>, b: Seq<Seq<char>>)
    requires
        a.len() > 0,
    ensures
        comma_joined(a + b) == if b.len() == 0 {
            comma_joined(a)
        } else {
            comma_joined(a) + seq![','] + comma_joined(b)
        },
    decreases b.len(),
{
    if b.len() == 0 {
        assert(a + b =~= a);
    } else {
        let init = b.drop_last();
        comma_joined_splits(a, init);
        assert((a + init).push(b.last()) =~= a + b);
        assert(init.push(b.last()) =~= b);
        comma_joined_grows(a + init, b.last());
        comma_joined_grows(init, b.last());
        assert(comma_joined(a + b) =~= comma_joined(a) + seq![','] + comma_joined(b));
    }
}

/// A list joined is at least as long as its first item.
pub proof fn comma_joined_holds_its_first(items: Seq<Seq<char>>)
    requires
        items.len() > 0,
    ensures
        comma_joined(items).len() >= items[0].len(),
    decreases items.len(),
{
    let init = items.drop_last();
    assert(init.push(items.last()) =~= items);
    comma_joined_grows(init, items.last());
    if init.len() > 0 {
        comma_joined_holds_its_first(init);
    }
}

/// A key and its value take some room.
pub proof fn a_pair_is_not_empty(key: Seq<char>, value: Seq<char>)
    ensures
        pair_text(key, value).len() > 0,
{
}

/// A string spells the name it holds and no other, and so does an object whose one key
/// is that name, with nothing under it. Whatever else a value is, it spells neither.
pub proof fn a_choice_is_spelled_exactly(
    name: Seq<char>,
    under: Json,
    first: Seq<char>,
    second: Seq<char>,
)
    requires
        first != second,
    ensures
        choice_in(Json::Str(first), first, second) == Ok::<bool, Seq<char>>(true),
        choice_in(Json::Str(second), first, second) == Ok::<bool, Seq<char>>(false),
        name != first && name != second ==> choice_in(Json::Str(name), first, second) == Err::<
            bool,
            Seq<char>,
        >("unknown variant `"@ + name + "`, expected `"@ + first + "` or `"@ + second + "`"@),
        ({
            let object = Json::Obj(Map::empty().insert(name, under));
            &&& under is Null ==> choice_in(object, first, second) == choice_in(
                Json::Str(name),
                first,
                second,
            )
            &&& !(under is Null) ==> choice_in(object, first, second) is Err
        }),
        choice_in(Json::Obj(Map::empty()), first, second) is Err,
{
    let fields = Map::<Seq<char>, Json>::empty().insert(name, under);
    assert(fields.dom() =~= set![name]);
    assert(fields.dom().len() == 1);
    assert(fields.dom().contains(fields.dom().choose()));
    assert(Map::<Seq<char>, Json>::empty().dom().len() == 0);
}

/// A value that is neither a string nor an object spells nothing, and neither does an
/// object with several keys.
pub proof fn anything_else_spells_nothing(value: Json, first: Seq<char>, second: Seq<char>)
    ensures
        !(value is Str) && !(value is Obj) ==> choice_in(value, first, second) == Err::<
            bool,
            Seq<char>,
        >("invalid type: "@ + described(value) + ", expected string or map"@),
        value matches Json::Obj(fields) && fields.dom().len() != 1 ==> choice_in(
            value,
            first,
            second,
        ) == Err::<bool, Seq<char>>("invalid value: map, expected map with a single key"@),
{
    reveal_strlit("invalid ");
    reveal_strlit("type");
    reveal_strlit(": ");
    reveal_strlit("invalid type: ");
    reveal_strlit(", expected ");
    reveal_strlit("string or map");
    reveal_strlit(", expected string or map");
    assert("invalid "@ + "type"@ + ": "@ =~= "invalid type: "@);
    assert(", expected "@ + "string or map"@ =~= ", expected string or map"@);
    assert(type_refusal(value, "string or map"@) =~= "invalid type: "@ + described(value)
        + ", expected string or map"@);
}

/// The text of a body is its fields in order, in the brackets of an object: a key, a
/// colon and the value, with a comma between two of them and no space anywhere.
pub proof fn a_body_is_written_field_by_field(body: Body, key: Seq<char>, field: Field)
    requires
        body.len() > 0,
    ensures
        body_text(seq![(key, field)]) == seq!['{'] + quoted(key) + seq![':'] + field_text(field)
            + seq!['}'],
        body_text(body.push((key, field))) == body_text(body).drop_last() + seq![','] + quoted(key)
            + seq![':'] + field_text(field) + seq!['}'],
{
    let pair = |f: (Seq<char>, Field)| pair_text(f.0, field_text(f.1));
    assert(seq![(key, field)].map_values(pair) =~= seq![pair_text(key, field_text(field))]);
    assert(comma_joined(seq![pair_text(key, field_text(field))]) == pair_text(
        key,
        field_text(field),
    ));
    assert(body_text(seq![(key, field)]) =~= seq!['{'] + quoted(key) + seq![':'] + field_text(field)
        + seq!['}']);
    assert(body.push((key, field)).map_values(pair) =~= body.map_values(pair).push(
        pair_text(key, field_text(field)),
    ));
    comma_joined_grows(body.map_values(pair), pair_text(key, field_text(field)));
    assert(body_text(body.push((key, field))) =~= body_text(body).drop_last() + seq![','] + quoted(
        key,
    ) + seq![':'] + field_text(field) + seq!['}']);
}

/// A number is written in decimal and a string in quotes.
pub proof fn a_leaf_is_written_as_what_it_is(n: u64, s: Seq<char>)
    ensures
        leaf_text(Leaf::UInt(n)) == text::decimal(n as nat),
        leaf_text(Leaf::Str(s)) == seq!['"'] + quoted_chars(s) + seq!['"'],
        field_text(Field::Leaf(Leaf::UInt(n))) == text::decimal(n as nat),
        field_text(Field::Leaf(Leaf::Str(s))) == seq!['"'] + quoted_chars(s) + seq!['"'],
{
}

/// A string is escaped character by character: quotes, backslashes and what lies below
/// the space, five of those by a letter and the others by their number. Everything else
/// stands for itself.
pub proof fn a_string_is_escaped_character_by_character(
    first: Seq<char>,
    then: Seq<char>,
    c: char,
)
    ensures
        quoted_chars(first + then) == quoted_chars(first) + quoted_chars(then),
        c >= ' ' && c != '"' && c != '\\' ==> quoted_chars(seq![c]) == seq![c],
        quoted_chars(seq!['"']) == seq!['\\', '"'],
        quoted_chars(seq!['\\']) == seq!['\\', '\\'],
        quoted_chars(seq!['\n']) == seq!['\\', 'n'],
        quoted_chars(seq!['\r']) == seq!['\\', 'r'],
        quoted_chars(seq!['\t']) == seq!['\\', 't'],
        quoted_chars(seq!['\u{8}']) == seq!['\\', 'b'],
        quoted_chars(seq!['\u{c}']) == seq!['\\', 'f'],
        c < ' ' && c != '\n' && c != '\r' && c != '\t' && c != '\u{8}' && c != '\u{c}'
            ==> quoted_chars(seq![c]) == seq!['\\', 'u'] + text::padded_numeral(c as nat, 16, 4),
    decreases then.len(),
{
    one_escaped(c);
    one_escaped('"');
    one_escaped('\\');
    one_escaped('\n');
    one_escaped('\r');
    one_escaped('\t');
    one_escaped('\u{8}');
    one_escaped('\u{c}');
    if then.len() == 0 {
        assert(first + then =~= first);
        assert(quoted_chars(first) + quoted_chars(then) =~= quoted_chars(first));
    } else {
        a_string_is_escaped_character_by_character(first, then.drop_last(), c);
        assert((first + then).drop_last() =~= first + then.drop_last());
        assert((first + then).last() == then.last());
        assert(quoted_chars(first + then) =~= quoted_chars(first) + quoted_chars(then));
    }
}

proof fn one_escaped(c: char)
    ensures
        quoted_chars(seq![c]) == quoted_char(c),
{
    assert(seq![c].drop_last() =~= seq![]);
    assert(quoted_chars(seq![]) =~= seq![]);
    assert(quoted_chars(seq![c]) =~= quoted_char(c));
}

/// A list of objects is written object by object, in the brackets of a list, and an
/// object field by field, with a comma between two of either.
pub proof fn a_list_is_written_object_by_object(
    items: Seq<Flat>,
    flat: Flat,
    key: Seq<char>,
    leaf: Leaf,
)
    requires
        items.len() > 0,
        flat.len() > 0,
    ensures
        field_text(Field::List(seq![])) == seq!['[', ']'],
        field_text(Field::List(seq![flat])) == seq!['['] + flat_text(flat) + seq![']'],
        field_text(Field::List(items.push(flat))) == field_text(Field::List(items)).drop_last()
            + seq![','] + flat_text(flat) + seq![']'],
        flat_text(seq![(key, leaf)]) == seq!['{'] + quoted(key) + seq![':'] + leaf_text(leaf)
            + seq!['}'],
        flat_text(flat.push((key, leaf))) == flat_text(flat).drop_last() + seq![','] + quoted(key)
            + seq![':'] + leaf_text(leaf) + seq!['}'],
{
    let of = |flat: Flat| flat_text(flat);
    let pair = |f: (Seq<char>, Leaf)| pair_text(f.0, leaf_text(f.1));
    assert(Seq::<Flat>::empty().map_values(of) =~= seq![]);
    assert(field_text(Field::List(seq![])) =~= seq!['[', ']']);
    assert(seq![flat].map_values(of) =~= seq![flat_text(flat)]);
    assert(items.push(flat).map_values(of) =~= items.map_values(of).push(flat_text(flat)));
    comma_joined_grows(items.map_values(of), flat_text(flat));
    assert(field_text(Field::List(items.push(flat))) =~= field_text(Field::List(items)).drop_last()
        + seq![','] + flat_text(flat) + seq![']']);
    let one = pair_text(key, leaf_text(leaf));
    assert(seq![(key, leaf)].map_values(pair) =~= seq![one]);
    assert(flat_text(seq![(key, leaf)]) =~= seq!['{'] + quoted(key) + seq![':'] + leaf_text(leaf)
        + seq!['}']);
    assert(flat.push((key, leaf)).map_values(pair) =~= flat.map_values(pair).push(one));
    comma_joined_grows(flat.map_values(pair), one);
    assert(flat_text(flat.push((key, leaf))) =~= flat_text(flat).drop_last() + seq![','] + quoted(
        key,
    ) + seq![':'] + leaf_text(leaf) + seq!['}']);
}

/// A complaint says whether the sort or only the value is wrong, what was found, and
/// what was expected.
pub proof fn a_complaint_says_what_was_found(value: Json, expected: Seq<char>)
    ensures
        type_refusal(value, expected) == "invalid "@ + "type"@ + ": "@ + described(value)
            + ", expected "@ + expected,
        value_refusal(value, expected) == "invalid "@ + "value"@ + ": "@ + described(value)
            + ", expected "@ + expected,
{
}

/// What was read is its content, and a failure its own words.
pub proof fn what_was_read_is_kept(value: serde_json::Value, why: String, found: bool)
    ensures
        content(Ok(value)) == Ok::<Json, Seq<char>>(json_of(value)),
        content(Err(why)) == Err::<Json, Seq<char>>(why@),
        outcome(Ok::<bool, String>(found)) == Ok::<bool, Seq<char>>(found),
        outcome(Err::<bool, String>(why)) == Err::<bool, Seq<char>>(why@),
{
}

/// The content of a body is what its fields hold, each under its own key: a number as a
/// count, a string as itself, and a list as its objects in order.
pub proof fn a_body_holds_what_it_was_given(
    body: Body,
    key: Seq<char>,
    n: u64,
    s: Seq<char>,
    items: Seq<Flat>,
)
    ensures
        body_json(seq![]) == Map::<Seq<char>, Json>::empty(),
        body_json(body.push((key, Field::Leaf(Leaf::UInt(n))))) == body_json(body).insert(
            key,
            Json::UInt(n),
        ),
        body_json(body.push((key, Field::Leaf(Leaf::Str(s))))) == body_json(body).insert(
            key,
            Json::Str(s),
        ),
        ({
            let list = body_json(body.push((key, Field::List(items))));
            &&& list.dom() == body_json(body).dom().insert(key)
            &&& list[key] is Arr
            &&& list[key]->Arr_0.len() == items.len()
            &&& forall|i: int|
                0 <= i < items.len() ==> #[trigger] list[key]->Arr_0[i] == Json::Obj(
                    flat_json(items[i]),
                )
        }),
{
    assert(body.push((key, Field::Leaf(Leaf::UInt(n)))).drop_last() =~= body);
    assert(body.push((key, Field::Leaf(Leaf::Str(s)))).drop_last() =~= body);
    assert(body.push((key, Field::List(items))).drop_last() =~= body);
}

/// The content of an object is what its fields hold, each under its own key.
pub proof fn an_object_holds_what_it_was_given(flat: Flat, key: Seq<char>, n: u64, s: Seq<char>)
    ensures
        flat_json(seq![]) == Map::<Seq<char>, Json>::empty(),
        flat_json(flat.push((key, Leaf::UInt(n)))) == flat_json(flat).insert(key, Json::UInt(n)),
        flat_json(flat.push((key, Leaf::Str(s)))) == flat_json(flat).insert(key, Json::Str(s)),
{
    assert(flat.push((key, Leaf::UInt(n))).drop_last() =~= flat);
    assert(flat.push((key, Leaf::Str(s))).drop_last() =~= flat);
}

} // verus!
