//! A motion script as the JSON text a bus body carries.
//!
//! Tolerance runs in one direction. Unknown fields are ignored, so that a newer
//! publisher may add one; an unknown posture is a refusal, because a guess would
//! move a head.

use vstd::prelude::*;

use crate::json::{
    self, as_text, expecting, get, parse, push_count_field, push_key, push_string_field, read_choice,
    read_count, read_list, read_text, Body, Field, Flat, Json, Leaf,
};
use crate::motion::script::{
    self, Action, ActionView, Base, MotionScript, Posture, ScriptError, ScriptView, Step, StepView,
};
use crate::text::{self, push_decimal, push_text, same_text};

verus! {

/// The discriminator every motion script carries.
pub const MOTION_SCRIPT_TYPE: &'static str = "motion-script";

/// Why a body did not yield a script.
#[derive(Debug, PartialEq, Eq)]
pub enum DecodeError {
    /// The body is not JSON at all.
    NotJson {
        /// What the parser said.
        detail: String,
    },
    /// The body is some other message on this channel.
    WrongType {
        /// The discriminator it carried.
        kind: String,
    },
    /// The body claims to be a script and does not hold one.
    Malformed {
        /// What is wrong with it.
        detail: String,
    },
    /// The body decoded and its timeline is not executable.
    Invalid(ScriptError),
}

/// A [`DecodeError`] as a mathematical value.
pub enum DecodeErrorView {
    /// The body is not JSON at all.
    NotJson(Seq<char>),
    /// The body is some other message.
    WrongType(Seq<char>),
    /// The body does not hold a script.
    Malformed(Seq<char>),
    /// The timeline is not executable.
    Invalid(ScriptError),
}

impl View for DecodeError {
    type V = DecodeErrorView;

    open spec fn view(&self) -> DecodeErrorView {
        match self {
            DecodeError::NotJson { detail } => DecodeErrorView::NotJson(detail@),
            DecodeError::WrongType { kind } => DecodeErrorView::WrongType(kind@),
            DecodeError::Malformed { detail } => DecodeErrorView::Malformed(detail@),
            DecodeError::Invalid(e) => DecodeErrorView::Invalid(*e),
        }
    }
}

/// The refusal as operators read it.
pub open spec fn decode_error_text(e: DecodeErrorView) -> Seq<char> {
    match e {
        DecodeErrorView::NotJson(detail) => "the body is not json: "@ + detail,
        DecodeErrorView::WrongType(kind) => "the body is a `"@ + kind
            + "` message, not a `motion-script` one"@,
        DecodeErrorView::Malformed(detail) =>
            "the body is not a well-formed `motion-script` message: "@ + detail,
        DecodeErrorView::Invalid(e) => "the script is not executable: "@
            + script::script_error_text(e),
    }
}

impl DecodeError {
    /// The refusal as operators read it.
    pub fn text(&self) -> (r: String)
        ensures
            r@ == decode_error_text(self@),
    {
        let mut out = String::new();
        match self {
            DecodeError::NotJson { detail } => {
                push_text(&mut out, "the body is not json: ");
                push_text(&mut out, detail.as_str());
            },
            DecodeError::WrongType { kind } => {
                push_text(&mut out, "the body is a `");
                push_text(&mut out, kind.as_str());
                push_text(&mut out, "` message, not a `motion-script` one");
            },
            DecodeError::Malformed { detail } => {
                push_text(&mut out, "the body is not a well-formed `motion-script` message: ");
                push_text(&mut out, detail.as_str());
            },
            DecodeError::Invalid(e) => {
                push_text(&mut out, "the script is not executable: ");
                let why = e.text();
                push_text(&mut out, why.as_str());
            },
        }
        assert(out@ =~= decode_error_text(self@));
        out
    }
}

/// Every step names a posture: the timeline has a text on the bus.
pub open spec fn names_postures(steps: Seq<StepView>) -> bool {
    forall|i: int|
        0 <= i < steps.len() ==> ((#[trigger] steps[i]).action matches ActionView::Base(
            Base::Posture(_),
        ))
}

/// The posture a step names, `Stow` where it names none.
pub open spec fn step_posture(step: StepView) -> Posture {
    match step.action {
        ActionView::Base(Base::Posture(posture)) => posture,
        _ => Posture::Stow,
    }
}

/// A step's object.
pub open spec fn step_flat(step: StepView) -> Flat {
    seq![
        ("after_ms"@, Leaf::UInt(step.after_ms)),
        ("posture"@, Leaf::Str(step_posture(step).spelling())),
    ]
}

/// A script's body.
pub open spec fn script_body(script: ScriptView) -> Body {
    seq![
        ("type"@, Field::Leaf(Leaf::Str("motion-script"@))),
        ("pod"@, Field::Leaf(Leaf::Str(script.pod))),
        ("seq"@, Field::Leaf(Leaf::UInt(script.seq))),
        ("steps"@, Field::List(script.steps.map_values(|s: StepView| step_flat(s)))),
        ("timeout_ms"@, Field::Leaf(Leaf::UInt(script.timeout_ms))),
    ]
}

/// A script's text on the bus.
pub open spec fn script_text(script: ScriptView) -> Seq<char> {
    json::body_text(script_body(script))
}

/// The posture a value spells, or what is wrong with it.
pub open spec fn posture_in(value: Json) -> Result<Posture, Seq<char>> {
    match json::choice_in(value, "up"@, "stow"@) {
        Ok(up) => Ok(
            if up {
                Posture::Up
            } else {
                Posture::Stow
            },
        ),
        Err(detail) => Err(detail),
    }
}

/// The count a value is, or what is wrong with it.
pub open spec fn count_in(value: Json) -> Result<u64, Seq<char>> {
    match value {
        Json::UInt(n) => Ok(n),
        Json::Int(n) => Err(json::value_refusal(value, "u64"@)),
        _ => Err(json::type_refusal(value, "u64"@)),
    }
}

/// A step out of its offset and its posture; the offset is looked at first.
pub open spec fn step_of(after_ms: Json, posture: Json) -> Result<StepView, Seq<char>> {
    match count_in(after_ms) {
        Err(detail) => Err(detail),
        Ok(n) => match posture_in(posture) {
            Err(detail) => Err(detail),
            Ok(posture) => Ok(script::posture_step(n, posture)),
        },
    }
}

/// What is wrong with a list of `len` items where a step has two.
pub open spec fn length_refusal(len: nat) -> Seq<char> {
    "invalid length "@ + text::decimal(len) + if len < 2 {
        ", expected struct Step with 2 elements"@
    } else {
        ", expected fewer elements in array"@
    }
}

/// The step the fields of an object hold, or what is wrong with them: a field that
/// cannot be read before one that is not there.
pub open spec fn step_fields(fields: Map<Seq<char>, Json>) -> Result<StepView, Seq<char>> {
    let after_ms = fields.dom().contains("after_ms"@);
    let posture = fields.dom().contains("posture"@);
    if after_ms && posture {
        step_of(fields["after_ms"@], fields["posture"@])
    } else if after_ms && count_in(fields["after_ms"@]) is Err {
        Err(count_in(fields["after_ms"@])->Err_0)
    } else if posture && posture_in(fields["posture"@]) is Err {
        Err(posture_in(fields["posture"@])->Err_0)
    } else if !after_ms {
        Err("missing field `after_ms`"@)
    } else {
        Err("missing field `posture`"@)
    }
}

/// The step a list holds, or what is wrong with it: an item that cannot be read
/// before a wrong length.
pub open spec fn step_items(items: Seq<Json>) -> Result<StepView, Seq<char>> {
    if items.len() >= 1 && count_in(items[0]) is Err {
        Err(count_in(items[0])->Err_0)
    } else if items.len() >= 2 && posture_in(items[1]) is Err {
        Err(posture_in(items[1])->Err_0)
    } else if items.len() == 2 {
        step_of(items[0], items[1])
    } else {
        Err(length_refusal(items.len()))
    }
}

/// The step a value holds, or what is wrong with it: an object with both fields, or
/// a list of both.
pub open spec fn step_in(value: Json) -> Result<StepView, Seq<char>> {
    match value {
        Json::Obj(fields) => step_fields(fields),
        Json::Arr(items) => step_items(items),
        _ => Err(json::type_refusal(value, "struct Step"@)),
    }
}

/// The steps that values hold, where each holds one; else what is wrong with the
/// first that does not.
pub open spec fn steps_in(items: Seq<Json>) -> Result<Seq<StepView>, Seq<char>>
    decreases items.len(),
{
    if items.len() == 0 {
        Ok(seq![])
    } else {
        match steps_in(items.drop_last()) {
            Err(detail) => Err(detail),
            Ok(front) => match step_in(items.last()) {
                Err(detail) => Err(detail),
                Ok(step) => Ok(front.push(step)),
            },
        }
    }
}

/// The timeline a value holds, or what is wrong with it.
pub open spec fn timeline_in(value: Json) -> Result<Seq<StepView>, Seq<char>> {
    match value {
        Json::Arr(items) => steps_in(items),
        _ => Err(json::type_refusal(value, "a sequence"@)),
    }
}

/// What is wrong with the first field that is there and cannot be read, in the order
/// of the names.
pub open spec fn unreadable_field(fields: Map<Seq<char>, Json>) -> Option<Seq<char>> {
    if fields.dom().contains("pod"@) && !(fields["pod"@] is Str) {
        Some(json::type_refusal(fields["pod"@], "a string"@))
    } else if fields.dom().contains("seq"@) && count_in(fields["seq"@]) is Err {
        Some(count_in(fields["seq"@])->Err_0)
    } else if fields.dom().contains("steps"@) && timeline_in(fields["steps"@]) is Err {
        Some(timeline_in(fields["steps"@])->Err_0)
    } else if fields.dom().contains("timeout_ms"@) && count_in(fields["timeout_ms"@]) is Err {
        Some(count_in(fields["timeout_ms"@])->Err_0)
    } else {
        None
    }
}

/// A field that is not there.
pub open spec fn missing_field(fields: Map<Seq<char>, Json>) -> Option<Seq<char>> {
    if !fields.dom().contains("pod"@) {
        Some("missing field `pod`"@)
    } else if !fields.dom().contains("seq"@) {
        Some("missing field `seq`"@)
    } else if !fields.dom().contains("steps"@) {
        Some("missing field `steps`"@)
    } else if !fields.dom().contains("timeout_ms"@) {
        Some("missing field `timeout_ms`"@)
    } else {
        None
    }
}

/// The script the fields of an object hold.
pub open spec fn script_in(fields: Map<Seq<char>, Json>) -> Result<ScriptView, DecodeErrorView> {
    match unreadable_field(fields) {
        Some(detail) => Err(DecodeErrorView::Malformed(detail)),
        None => match missing_field(fields) {
            Some(detail) => Err(DecodeErrorView::Malformed(detail)),
            None => {
                let script = ScriptView {
                    pod: fields["pod"@]->Str_0,
                    seq: fields["seq"@]->UInt_0,
                    steps: timeline_in(fields["steps"@])->Ok_0,
                    timeout_ms: fields["timeout_ms"@]->UInt_0,
                };
                match script::refusal(script.steps, script.timeout_ms) {
                    Some(e) => Err(DecodeErrorView::Invalid(e)),
                    None => Ok(script),
                }
            },
        },
    }
}

/// The script a body holds. Its discriminator is looked at first, so that a body
/// of another kind is reported as that and not as a malformed script.
pub open spec fn script_of(read: Result<Json, Seq<char>>) -> Result<ScriptView, DecodeErrorView> {
    match read {
        Err(why) => Err(DecodeErrorView::NotJson(why)),
        Ok(Json::Obj(fields)) => if !fields.dom().contains("type"@) {
            Err(DecodeErrorView::Malformed("no `type` field"@))
        } else {
            match fields["type"@] {
                Json::Str(kind) => if kind == "motion-script"@ {
                    script_in(fields)
                } else {
                    Err(DecodeErrorView::WrongType(kind))
                },
                _ => Err(DecodeErrorView::Malformed("no `type` field"@)),
            }
        },
        Ok(_) => Err(DecodeErrorView::Malformed("no `type` field"@)),
    }
}

/// The posture a value spells.
fn read_posture(value: &serde_json::Value) -> (r: Result<Posture, String>)
    ensures
        json::outcome(r) == posture_in(json::json_of(*value)),
{
    match read_choice(value, "up", "stow") {
        Ok(up) => Ok(
            if up {
                Posture::Up
            } else {
                Posture::Stow
            },
        ),
        Err(said) => Err(said),
    }
}

/// What reading a step came to, as mathematical values.
spec fn step_outcome(read: Result<Step, String>) -> Result<StepView, Seq<char>> {
    match read {
        Ok(step) => Ok(step@),
        Err(said) => Err(said@),
    }
}

/// The step the fields of an object hold.
fn read_step_fields(value: &serde_json::Value) -> (r: Result<Step, String>)
    requires
        json::json_of(*value) is Obj,
    ensures
        step_outcome(r) == step_fields(json::json_of(*value)->Obj_0),
{
    let after_ms = match get(value, "after_ms") {
        Some(v) => match read_count(v) {
            Ok(n) => Some(n),
            Err(said) => {
                return Err(said);
            },
        },
        None => None,
    };
    let posture = match get(value, "posture") {
        Some(v) => match read_posture(v) {
            Ok(posture) => Some(posture),
            Err(said) => {
                return Err(said);
            },
        },
        None => None,
    };
    match (after_ms, posture) {
        (None, _) => Err("missing field `after_ms`".to_owned()),
        (_, None) => Err("missing field `posture`".to_owned()),
        (Some(n), Some(posture)) => Ok(Step::new(n, posture)),
    }
}

/// The step a list holds.
fn read_step_items(items: &Vec<serde_json::Value>) -> (r: Result<Step, String>)
    ensures
        step_outcome(r) == step_items(
            items@.map_values(|v: serde_json::Value| json::json_of(v)),
        ),
{
    let ghost jsons = items@.map_values(|v: serde_json::Value| json::json_of(v));
    let len: usize = items.len();
    let mut after_ms: Option<u64> = None;
    if len >= 1 {
        assert(jsons[0] == json::json_of(items@[0]));
        match read_count(&items[0]) {
            Ok(n) => {
                after_ms = Some(n);
            },
            Err(said) => {
                return Err(said);
            },
        }
    }
    let mut posture: Option<Posture> = None;
    if len >= 2 {
        assert(jsons[1] == json::json_of(items@[1]));
        match read_posture(&items[1]) {
            Ok(found) => {
                posture = Some(found);
            },
            Err(said) => {
                return Err(said);
            },
        }
    }
    if len == 2 {
        if let (Some(n), Some(posture)) = (after_ms, posture) {
            return Ok(Step::new(n, posture));
        }
    }
    let mut said = String::new();
    push_text(&mut said, "invalid length ");
    push_decimal(&mut said, len as u64);
    if len < 2 {
        push_text(&mut said, ", expected struct Step with 2 elements");
    } else {
        push_text(&mut said, ", expected fewer elements in array");
    }
    assert(said@ =~= length_refusal(len as nat));
    Err(said)
}

/// The step a value holds.
fn read_step(value: &serde_json::Value) -> (r: Result<Step, String>)
    ensures
        step_outcome(r) == step_in(json::json_of(*value)),
{
    match json::keys(value) {
        Some(_) => read_step_fields(value),
        None => match read_list(value) {
            Ok(items) => read_step_items(&items),
            Err(said) => {
                proof {
                    let front = json::complaint(
                        "type"@,
                        json::described(json::json_of(*value)),
                        seq![],
                    );
                    assert(said@ =~= front + "a sequence"@);
                    assert(said@.take(said@.len() - "a sequence"@.len()) =~= front);
                }
                Err(expecting(said.as_str(), "a sequence", "struct Step"))
            },
        },
    }
}

proof fn steps_in_front(items: Seq<Json>, n: int)
    requires
        0 <= n <= items.len(),
        steps_in(items.take(n)) is Err,
    ensures
        steps_in(items) == steps_in(items.take(n)),
    decreases items.len() - n,
{
    if n < items.len() {
        assert(items.take(n + 1).drop_last() =~= items.take(n));
        steps_in_front(items, n + 1);
    } else {
        assert(items.take(n) =~= items);
    }
}

/// The timeline a value holds.
fn read_timeline(value: &serde_json::Value) -> (r: Result<Vec<Step>, String>)
    ensures
        match timeline_in(json::json_of(*value)) {
            Ok(steps) => r matches Ok(found) && script::steps_view(found@) == steps,
            Err(detail) => r matches Err(said) && said@ == detail,
        },
{
    let items = match read_list(value) {
        Ok(items) => items,
        Err(said) => {
            return Err(said);
        },
    };
    let ghost jsons = items@.map_values(|v: serde_json::Value| json::json_of(v));
    let mut steps: Vec<Step> = Vec::new();
    let mut i: usize = 0;
    assert(script::steps_view(steps@) =~= seq![]);
    while i < items.len()
        invariant
            i <= items.len(),
            jsons == items@.map_values(|v: serde_json::Value| json::json_of(v)),
            json::json_of(*value) == Json::Arr(jsons),
            steps_in(jsons.take(i as int)) == Ok::<Seq<StepView>, Seq<char>>(
                script::steps_view(steps@),
            ),
        decreases items.len() - i,
    {
        let ghost before = steps@;
        proof {
            assert(jsons.take(i + 1).drop_last() =~= jsons.take(i as int));
            assert(jsons.take(i + 1).last() == json::json_of(items@[i as int]));
        }
        match read_step(&items[i]) {
            Ok(step) => {
                steps.push(step);
                assert(script::steps_view(steps@) =~= script::steps_view(before).push(step@));
            },
            Err(said) => {
                proof {
                    steps_in_front(jsons, i + 1);
                }
                return Err(said);
            },
        }
        i = i + 1;
    }
    assert(jsons.take(i as int) =~= jsons);
    Ok(steps)
}

fn malformed(detail: &str) -> (r: DecodeError)
    ensures
        r@ == DecodeErrorView::Malformed(detail@),
{
    DecodeError::Malformed { detail: detail.to_owned() }
}

/// The script the fields of an object hold.
fn read_script(value: &serde_json::Value) -> (r: Result<MotionScript, DecodeError>)
    requires
        json::json_of(*value) is Obj,
    ensures
        match script_in(json::json_of(*value)->Obj_0) {
            Ok(script) => r matches Ok(found) && found@ == script,
            Err(e) => r matches Err(found) && found@ == e,
        },
{
    let pod = get(value, "pod");
    let seq = get(value, "seq");
    let steps = get(value, "steps");
    let timeout = get(value, "timeout_ms");
    let pod_text = match pod {
        Some(v) => match read_text(v) {
            Ok(s) => Some(s),
            Err(detail) => {
                return Err(DecodeError::Malformed { detail });
            },
        },
        None => None,
    };
    let seq_count = match seq {
        Some(v) => match read_count(v) {
            Ok(n) => Some(n),
            Err(detail) => {
                return Err(DecodeError::Malformed { detail });
            },
        },
        None => None,
    };
    let timeline = match steps {
        Some(v) => match read_timeline(v) {
            Ok(found) => Some(found),
            Err(detail) => {
                return Err(DecodeError::Malformed { detail });
            },
        },
        None => None,
    };
    let timeout_count = match timeout {
        Some(v) => match read_count(v) {
            Ok(n) => Some(n),
            Err(detail) => {
                return Err(DecodeError::Malformed { detail });
            },
        },
        None => None,
    };
    match (pod_text, seq_count, timeline, timeout_count) {
        (None, _, _, _) => Err(malformed("missing field `pod`")),
        (_, None, _, _) => Err(malformed("missing field `seq`")),
        (_, _, None, _) => Err(malformed("missing field `steps`")),
        (_, _, _, None) => Err(malformed("missing field `timeout_ms`")),
        (Some(pod), Some(seq), Some(steps), Some(timeout_ms)) => {
            match MotionScript::new(pod.as_str(), seq, steps, timeout_ms) {
                Ok(script) => Ok(script),
                Err(e) => Err(DecodeError::Invalid(e)),
            }
        },
    }
}

fn push_step(out: &mut String, step: &Step)
    requires
        step@.action matches ActionView::Base(Base::Posture(_)),
    ensures
        final(out)@ == old(out)@ + json::flat_text(step_flat(step@)),
{
    let posture = match &step.action {
        Action::Base(Base::Posture(posture)) => *posture,
        _ => Posture::Stow,
    };
    out.push('{');
    push_count_field(out, "after_ms", step.after_ms);
    out.push(',');
    push_string_field(out, "posture", posture.as_str());
    out.push('}');
    proof {
        let flat = step_flat(step@);
        let a = json::pair_text("after_ms"@, json::leaf_text(Leaf::UInt(step@.after_ms)));
        let b = json::pair_text("posture"@, json::leaf_text(Leaf::Str(posture.spelling())));
        assert(flat.map_values(
            |f: (Seq<char>, Leaf)| json::pair_text(f.0, json::leaf_text(f.1)),
        ) =~= seq![a, b]);
        json::comma_joined_grows(seq![a], b);
        assert(seq![a].push(b) =~= seq![a, b]);
        assert(out@ =~= old(out)@ + json::flat_text(flat));
    }
}

fn push_steps(out: &mut String, steps: &[Step])
    requires
        names_postures(script::steps_view(steps@)),
    ensures
        final(out)@ == old(out)@ + json::field_text(
            Field::List(script::steps_view(steps@).map_values(|s: StepView| step_flat(s))),
        ),
{
    let ghost flats = script::steps_view(steps@).map_values(|s: StepView| step_flat(s));
    let ghost texts = flats.map_values(|flat: Flat| json::flat_text(flat));
    out.push('[');
    let ghost start = out@;
    let mut i: usize = 0;
    assert(out@ =~= start + json::comma_joined(texts.take(0)));
    while i < steps.len()
        invariant
            i <= steps.len(),
            names_postures(script::steps_view(steps@)),
            flats == script::steps_view(steps@).map_values(|s: StepView| step_flat(s)),
            texts == flats.map_values(|flat: Flat| json::flat_text(flat)),
            texts.len() == steps.len(),
            out@ == start + json::comma_joined(texts.take(i as int)),
        decreases steps.len() - i,
    {
        if i > 0 {
            out.push(',');
        }
        proof {
            let views = script::steps_view(steps@);
            assert(views[i as int] == steps@[i as int]@);
            assert(texts[i as int] == json::flat_text(step_flat(steps@[i as int]@)));
            json::comma_joined_grows(texts.take(i as int), texts[i as int]);
            assert(texts.take(i as int).push(texts[i as int]) =~= texts.take(i + 1));
        }
        push_step(out, &steps[i]);
        i = i + 1;
        assert(out@ =~= start + json::comma_joined(texts.take(i as int)));
    }
    assert(texts.take(i as int) =~= texts);
    out.push(']');
    assert(out@ =~= old(out)@ + json::field_text(Field::List(flats)));
}

proof fn script_body_is_proper(script: ScriptView)
    ensures
        json::is_proper(script_body(script)),
{
    reveal_strlit("type");
    reveal_strlit("pod");
    reveal_strlit("seq");
    reveal_strlit("steps");
    reveal_strlit("timeout_ms");
    reveal_strlit("after_ms");
    reveal_strlit("posture");
    let body = script_body(script);
    assert("pod"@[0] != "seq"@[0]);
    assert("type"@.len() == 4 && "pod"@.len() == 3 && "seq"@.len() == 3 && "steps"@.len() == 5
        && "timeout_ms"@.len() == 10);
    assert forall|i: int, j: int| 0 <= i < j < body.len() implies (#[trigger] body[i]).0 != (
    #[trigger] body[j]).0 by {
        assert(body[0].0 == "type"@ && body[1].0 == "pod"@ && body[2].0 == "seq"@ && body[3].0
            == "steps"@ && body[4].0 == "timeout_ms"@);
        assert(i == 0 || i == 1 || i == 2 || i == 3);
        assert(j == 1 || j == 2 || j == 3 || j == 4);
    }
    assert forall|i: int, j: int|
        0 <= i < body.len() && (body[i].1 matches Field::List(items) && 0 <= j
            < items.len()) implies json::keys_differ(#[trigger] body[i].1->List_0[j]) by {
        let flat = body[i].1->List_0[j];
        assert(flat == step_flat(script.steps[j]));
        assert("after_ms"@.len() != "posture"@.len());
    }
}

proof fn steps_read_back(steps: Seq<StepView>)
    requires
        names_postures(steps),
    ensures
        timeline_in(
            json::field_json(Field::List(steps.map_values(|s: StepView| step_flat(s)))),
        ) == Ok::<Seq<StepView>, Seq<char>>(steps),
    decreases steps.len(),
{
    let flats = steps.map_values(|s: StepView| step_flat(s));
    let items = flats.map_values(|flat: Flat| Json::Obj(json::flat_json(flat)));
    if steps.len() == 0 {
        assert(steps =~= seq![]);
    } else {
        let front = steps.drop_last();
        assert(names_postures(front)) by {
            assert forall|i: int| 0 <= i < front.len() implies ((
            #[trigger] front[i]).action matches ActionView::Base(Base::Posture(_))) by {
                assert(front[i] == steps[i]);
            }
        }
        steps_read_back(front);
        let front_flats = front.map_values(|s: StepView| step_flat(s));
        let front_items = front_flats.map_values(|flat: Flat| Json::Obj(json::flat_json(flat)));
        assert(items.drop_last() =~= front_items);
        let last = steps.last();
        assert(steps[steps.len() - 1] == last);
        let flat = step_flat(last);
        reveal_strlit("after_ms");
        reveal_strlit("posture");
        reveal_strlit("up");
        reveal_strlit("stow");
        assert("after_ms"@.len() != "posture"@.len());
        assert("up"@.len() != "stow"@.len());
        json::flat_json_holds_its_fields(flat);
        assert(flat[0].0 == "after_ms"@ && flat[1].0 == "posture"@);
        assert(items.last() == Json::Obj(json::flat_json(flat)));
        assert(step_in(items.last()) == Ok::<StepView, Seq<char>>(last));
        assert(front.push(last) =~= steps);
    }
}

proof fn script_reads_back(script: ScriptView)
    requires
        script.lawful(),
        names_postures(script.steps),
    ensures
        script_of(Ok(Json::Obj(json::body_json(script_body(script))))) == Ok::<
            ScriptView,
            DecodeErrorView,
        >(script),
{
    let body = script_body(script);
    script_body_is_proper(script);
    json::body_json_holds_its_fields(body);
    assert(body[0].0 == "type"@ && body[1].0 == "pod"@ && body[2].0 == "seq"@ && body[3].0
        == "steps"@ && body[4].0 == "timeout_ms"@);
    steps_read_back(script.steps);
    script::only_lawful_timelines_pass(script.steps, script.timeout_ms);
}

impl MotionScript {
    /// Whether every step names a posture, so that the script has a text.
    pub fn has_text(&self) -> (r: bool)
        ensures
            r == names_postures(self@.steps),
    {
        let steps = self.steps();
        let ghost views = script::steps_view(steps@);
        let mut i: usize = 0;
        while i < steps.len()
            invariant
                i <= steps.len(),
                views == script::steps_view(steps@),
                self@.steps == views,
                forall|k: int|
                    0 <= k < i ==> ((#[trigger] views[k]).action matches ActionView::Base(
                        Base::Posture(_),
                    )),
            decreases steps.len() - i,
        {
            assert(views[i as int] == steps@[i as int]@);
            match &steps[i].action {
                Action::Base(Base::Posture(_)) => {},
                _ => {
                    return false;
                },
            }
            i = i + 1;
        }
        true
    }

    /// This script as the JSON text a bus body carries. Its steps have to name
    /// postures: no other step has a form on the bus.
    pub fn encode(&self) -> (r: String)
        requires
            names_postures(self@.steps),
        ensures
            r@ == script_text(self@),
    {
        let mut out = String::new();
        out.push('{');
        push_string_field(&mut out, "type", MOTION_SCRIPT_TYPE);
        out.push(',');
        push_string_field(&mut out, "pod", self.pod());
        out.push(',');
        push_count_field(&mut out, "seq", self.seq());
        out.push(',');
        push_key(&mut out, "steps");
        push_steps(&mut out, self.steps());
        out.push(',');
        push_count_field(&mut out, "timeout_ms", self.timeout_ms());
        out.push('}');
        proof {
            let body = script_body(self@);
            let texts = body.map_values(
                |f: (Seq<char>, Field)| json::pair_text(f.0, json::field_text(f.1)),
            );
            let a = json::pair_text("type"@, json::field_text(body[0].1));
            let b = json::pair_text("pod"@, json::field_text(body[1].1));
            let c = json::pair_text("seq"@, json::field_text(body[2].1));
            let d = json::pair_text("steps"@, json::field_text(body[3].1));
            let e = json::pair_text("timeout_ms"@, json::field_text(body[4].1));
            assert(texts =~= seq![a, b, c, d, e]);
            json::comma_joined_five(a, b, c, d, e);
            assert(out@ =~= script_text(self@));
        }
        out
    }

    /// A script out of the JSON text a delivery carried. What it says of a text
    /// goes by what the parser makes of it; the text of a script is read back as
    /// that script.
    pub fn decode(text: &str) -> (r: Result<MotionScript, DecodeError>)
        ensures
            match script_of(json::parsed(text@)) {
                Ok(script) => r matches Ok(found) && found@ == script,
                Err(e) => r matches Err(found) && found@ == e,
            },
            forall|script: ScriptView|
                script.lawful() && names_postures(script.steps) && text@ == #[trigger] script_text(
                    script,
                ) ==> (r matches Ok(found) && found@ == script),
    {
        let read = parse(text);
        proof {
            assert forall|script: ScriptView|
                script.lawful() && names_postures(script.steps) && text@ == #[trigger] script_text(
                    script,
                ) implies script_of(json::parsed(text@)) == Ok::<ScriptView, DecodeErrorView>(
                script,
            ) by {
                script_body_is_proper(script);
                script_reads_back(script);
                assert(text@ == json::body_text(script_body(script)));
            }
        }
        MotionScript::from_value(read)
    }

    /// The script that a parsed body holds, given what parsing it came to.
    pub fn from_value(read: Result<serde_json::Value, String>) -> (r: Result<
        MotionScript,
        DecodeError,
    >)
        ensures
            match script_of(json::content(read)) {
                Ok(script) => r matches Ok(found) && found@ == script,
                Err(e) => r matches Err(found) && found@ == e,
            },
    {
        let value = match read {
            Ok(value) => value,
            Err(detail) => {
                return Err(DecodeError::NotJson { detail });
            },
        };
        let kind = match get(&value, "type") {
            Some(kind) => kind,
            None => {
                return Err(malformed("no `type` field"));
            },
        };
        match as_text(kind) {
            Some(kind) => {
                if same_text(kind, MOTION_SCRIPT_TYPE) {
                    read_script(&value)
                } else {
                    Err(DecodeError::WrongType { kind: kind.to_owned() })
                }
            },
            None => Err(malformed("no `type` field")),
        }
    }
}

/// The constructor and the decoder come to the same conclusion about a timeline:
/// what one refuses the other refuses, for the same reason.
pub proof fn both_doors_agree(fields: Map<Seq<char>, Json>)
    requires
        unreadable_field(fields) is None,
        missing_field(fields) is None,
    ensures
        ({
            let steps = timeline_in(fields["steps"@])->Ok_0;
            let timeout_ms = fields["timeout_ms"@]->UInt_0;
            match script::refusal(steps, timeout_ms) {
                Some(e) => script_in(fields) == Err::<ScriptView, DecodeErrorView>(
                    DecodeErrorView::Invalid(e),
                ),
                None => script_in(fields) is Ok,
            }
        }),
{
}

/// A field nobody knows makes no difference.
pub proof fn an_unknown_field_is_ignored(
    fields: Map<Seq<char>, Json>,
    key: Seq<char>,
    value: Json,
)
    requires
        key != "type"@,
        key != "pod"@,
        key != "seq"@,
        key != "steps"@,
        key != "timeout_ms"@,
    ensures
        script_of(Ok(Json::Obj(fields.insert(key, value)))) == script_of(Ok(Json::Obj(fields))),
{
    let grown = fields.insert(key, value);
    assert(grown.dom().contains("type"@) == fields.dom().contains("type"@));
    assert(grown.dom().contains("pod"@) == fields.dom().contains("pod"@));
    assert(grown.dom().contains("seq"@) == fields.dom().contains("seq"@));
    assert(grown.dom().contains("steps"@) == fields.dom().contains("steps"@));
    assert(grown.dom().contains("timeout_ms"@) == fields.dom().contains("timeout_ms"@));
}

/// A body is sorted by its discriminator before anything in it is read.
pub proof fn a_body_is_sorted_by_its_type(
    why: Seq<char>,
    value: Json,
    fields: Map<Seq<char>, Json>,
    kind: Seq<char>,
)
    ensures
        script_of(Err(why)) == Err::<ScriptView, DecodeErrorView>(DecodeErrorView::NotJson(why)),
        !(value is Obj) ==> script_of(Ok(value)) == Err::<ScriptView, DecodeErrorView>(
            DecodeErrorView::Malformed("no `type` field"@),
        ),
        !fields.dom().contains("type"@) || !(fields["type"@] is Str) ==> script_of(
            Ok(Json::Obj(fields)),
        ) == Err::<ScriptView, DecodeErrorView>(DecodeErrorView::Malformed("no `type` field"@)),
        fields.dom().contains("type"@) && fields["type"@] == Json::Str(kind) && kind
            != "motion-script"@ ==> script_of(Ok(Json::Obj(fields))) == Err::<
            ScriptView,
            DecodeErrorView,
        >(DecodeErrorView::WrongType(kind)),
{
}

/// A step is read by its two parts, from an object or from a list: its offset as a count
/// and its posture by one of two names. A guess would move a head.
pub proof fn a_step_is_read_by_its_two_parts(
    fields: Map<Seq<char>, Json>,
    after_ms: u64,
    name: Seq<char>,
)
    requires
        fields.dom().contains("after_ms"@),
        fields["after_ms"@] == Json::UInt(after_ms),
        fields.dom().contains("posture"@),
        fields["posture"@] == Json::Str(name),
    ensures
        ({
            let object = step_in(Json::Obj(fields));
            let list = step_in(Json::Arr(seq![Json::UInt(after_ms), Json::Str(name)]));
            &&& name == "up"@ ==> object == Ok::<StepView, Seq<char>>(
                StepView { after_ms, action: ActionView::Base(Base::Posture(Posture::Up)) },
            )
            &&& name == "stow"@ ==> object == Ok::<StepView, Seq<char>>(
                StepView { after_ms, action: ActionView::Base(Base::Posture(Posture::Stow)) },
            )
            &&& name != "up"@ && name != "stow"@ ==> object is Err
            &&& list == object
        }),
{
    reveal_strlit("up");
    reveal_strlit("stow");
    assert("up"@.len() != "stow"@.len());
    let items = seq![Json::UInt(after_ms), Json::Str(name)];
    assert(items[0] == Json::UInt(after_ms) && items[1] == Json::Str(name));
}

/// A step that lacks a part, or has one of the wrong sort, is no step.
pub proof fn half_a_step_is_no_step(value: Json)
    ensures
        !(value is Obj) && !(value is Arr) ==> step_in(value) is Err,
        value matches Json::Obj(fields) && (!fields.dom().contains("after_ms"@)
            || !fields.dom().contains("posture"@) || !(fields["after_ms"@] is UInt)) ==> step_in(
            value,
        ) is Err,
        value matches Json::Arr(items) && (items.len() != 2 || !(items[0] is UInt)) ==> step_in(
            value,
        ) is Err,
{
}

/// A timeline is read step by step, in order and none left out; one that is no step
/// spoils it, and the first such is what is complained about.
pub proof fn a_timeline_is_read_step_by_step(items: Seq<Json>, k: int)
    requires
        0 <= k < items.len(),
    ensures
        match timeline_in(Json::Arr(items)) {
            Ok(steps) => {
                &&& steps.len() == items.len()
                &&& step_in(items[k]) == Ok::<StepView, Seq<char>>(steps[k])
            },
            Err(detail) => (forall|i: int| 0 <= i < k ==> step_in(#[trigger] items[i]) is Ok)
                && step_in(items[k]) is Err ==> step_in(items[k]) == Err::<StepView, Seq<char>>(
                detail,
            ),
        },
        timeline_in(Json::Arr(items)) is Err ==> exists|i: int|
            0 <= i < items.len() && step_in(#[trigger] items[i]) is Err,
    decreases items.len(),
{
    steps_are_the_items(items);
    if timeline_in(Json::Arr(items)) is Err {
        if (forall|i: int| 0 <= i < k ==> step_in(#[trigger] items[i]) is Ok) && step_in(
            items[k],
        ) is Err {
            let front = items.take(k + 1);
            assert(front.drop_last() =~= items.take(k));
            assert forall|i: int| 0 <= i < k implies step_in(#[trigger] items.take(k)[i]) is Ok by {
                assert(items.take(k)[i] == items[i]);
            }
            steps_are_the_items(items.take(k));
            assert(front.last() == items[k]);
            steps_in_front(items, k + 1);
        }
    }
}

proof fn steps_are_the_items(items: Seq<Json>)
    ensures
        match steps_in(items) {
            Ok(steps) => {
                &&& steps.len() == items.len()
                &&& forall|i: int|
                    0 <= i < items.len() ==> step_in(#[trigger] items[i]) == Ok::<
                        StepView,
                        Seq<char>,
                    >(steps[i])
            },
            Err(_) => exists|i: int| 0 <= i < items.len() && step_in(#[trigger] items[i]) is Err,
        },
    decreases items.len(),
{
    if items.len() > 0 {
        let front = items.drop_last();
        let last = items.len() - 1;
        steps_are_the_items(front);
        assert(items[last] == items.last());
        match steps_in(front) {
            Ok(before) => {
                if let Ok(steps) = steps_in(items) {
                    assert forall|i: int| 0 <= i < items.len() implies step_in(
                        #[trigger] items[i],
                    ) == Ok::<StepView, Seq<char>>(steps[i]) by {
                        if i < last {
                            assert(front[i] == items[i]);
                        }
                    }
                }
            },
            Err(_) => {
                let i = choose|i: int|
                    0 <= i < front.len() && step_in(#[trigger] front[i]) is Err;
                assert(items[i] == front[i]);
            },
        }
    }
}

/// A script is read field by field, and passes exactly where its timeline can be
/// executed; else it is refused for what is wrong with the timeline.
pub proof fn a_script_is_read_field_by_field(
    fields: Map<Seq<char>, Json>,
    pod: Seq<char>,
    seq: u64,
    items: Seq<Json>,
    steps: Seq<StepView>,
    timeout_ms: u64,
)
    requires
        fields.dom().contains("type"@),
        fields["type"@] == Json::Str("motion-script"@),
        fields.dom().contains("pod"@),
        fields["pod"@] == Json::Str(pod),
        fields.dom().contains("seq"@),
        fields["seq"@] == Json::UInt(seq),
        fields.dom().contains("steps"@),
        fields["steps"@] == Json::Arr(items),
        timeline_in(Json::Arr(items)) == Ok::<Seq<StepView>, Seq<char>>(steps),
        fields.dom().contains("timeout_ms"@),
        fields["timeout_ms"@] == Json::UInt(timeout_ms),
    ensures
        script_of(Ok(Json::Obj(fields))) == match script::refusal(steps, timeout_ms) {
            None => Ok::<ScriptView, DecodeErrorView>(ScriptView { pod, seq, steps, timeout_ms }),
            Some(e) => Err(DecodeErrorView::Invalid(e)),
        },
{
}

/// What is read as a script is one: every field was there, of its own sort, and the
/// timeline can be executed.
pub proof fn nothing_is_made_up(read: Result<Json, Seq<char>>)
    requires
        script_of(read) is Ok,
    ensures
        read matches Ok(Json::Obj(fields)) && {
            let script = script_of(read)->Ok_0;
            &&& fields.dom().contains("type"@) && fields["type"@] == Json::Str("motion-script"@)
            &&& fields.dom().contains("pod"@) && fields["pod"@] == Json::Str(script.pod)
            &&& fields.dom().contains("seq"@) && fields["seq"@] == Json::UInt(script.seq)
            &&& fields.dom().contains("timeout_ms"@) && fields["timeout_ms"@] == Json::UInt(
                script.timeout_ms,
            )
            &&& fields.dom().contains("steps"@) && timeline_in(fields["steps"@]) == Ok::<
                Seq<StepView>,
                Seq<char>,
            >(script.steps)
            &&& script.lawful()
        },
{
    let script = script_of(read)->Ok_0;
    script::only_lawful_timelines_pass(script.steps, script.timeout_ms);
}

/// A field that is not there is named, where all that are there can be read.
pub proof fn a_missing_field_is_named(fields: Map<Seq<char>, Json>)
    requires
        fields.dom().contains("type"@),
        fields["type"@] == Json::Str("motion-script"@),
        fields.dom().contains("pod"@) ==> fields["pod"@] is Str,
        fields.dom().contains("seq"@) ==> fields["seq"@] is UInt,
        fields.dom().contains("steps"@) ==> timeline_in(fields["steps"@]) is Ok,
        fields.dom().contains("timeout_ms"@) ==> fields["timeout_ms"@] is UInt,
    ensures
        ({
            let read = script_of(Ok(Json::Obj(fields)));
            let missing = |name: Seq<char>|
                Err::<ScriptView, DecodeErrorView>(DecodeErrorView::Malformed(name));
            let pod = fields.dom().contains("pod"@);
            let seq = fields.dom().contains("seq"@);
            let steps = fields.dom().contains("steps"@);
            let timeout = fields.dom().contains("timeout_ms"@);
            &&& !pod ==> read == missing("missing field `pod`"@)
            &&& pod && !seq ==> read == missing("missing field `seq`"@)
            &&& pod && seq && !steps ==> read == missing("missing field `steps`"@)
            &&& pod && seq && steps && !timeout ==> read == missing("missing field `timeout_ms`"@)
        }),
{
}

/// A field of the wrong sort is never read around: the script is refused.
pub proof fn a_wrong_field_is_refused(fields: Map<Seq<char>, Json>)
    requires
        fields.dom().contains("type"@),
        fields["type"@] == Json::Str("motion-script"@),
        (fields.dom().contains("pod"@) && !(fields["pod"@] is Str)) || (fields.dom().contains(
            "seq"@,
        ) && !(fields["seq"@] is UInt)) || (fields.dom().contains("steps"@)
            && !(fields["steps"@] is Arr)) || (fields.dom().contains("timeout_ms"@)
            && !(fields["timeout_ms"@] is UInt)),
    ensures
        script_of(Ok(Json::Obj(fields))) matches Err(DecodeErrorView::Malformed(_)),
{
}

/// A script is written as an object of five fields, in this order, with a list of its
/// steps, each an object of its offset and its posture by name.
pub proof fn a_script_is_written_in_five_fields(script: ScriptView, k: int, posture: Posture)
    requires
        0 <= k < script.steps.len(),
        script.steps[k].action == ActionView::Base(Base::Posture(posture)),
    ensures
        ({
            let body = script_body(script);
            &&& body.len() == 5
            &&& body[0] == ("type"@, Field::Leaf(Leaf::Str("motion-script"@)))
            &&& body[1] == ("pod"@, Field::Leaf(Leaf::Str(script.pod)))
            &&& body[2] == ("seq"@, Field::Leaf(Leaf::UInt(script.seq)))
            &&& body[3].0 == "steps"@
            &&& body[4] == ("timeout_ms"@, Field::Leaf(Leaf::UInt(script.timeout_ms)))
            &&& body[3].1 matches Field::List(flats)
            &&& flats.len() == script.steps.len()
            &&& flats[k] == seq![
                ("after_ms"@, Leaf::UInt(script.steps[k].after_ms)),
                (
                    "posture"@,
                    Leaf::Str(
                        if posture == Posture::Up {
                            "up"@
                        } else {
                            "stow"@
                        },
                    ),
                ),
            ]
        }),
{
}

/// What was written is read back: the content of a script's text is that script.
pub proof fn a_script_survives_the_wire(script: ScriptView)
    requires
        script.lawful(),
        names_postures(script.steps),
    ensures
        script_of(Ok(Json::Obj(json::body_json(script_body(script))))) == Ok::<
            ScriptView,
            DecodeErrorView,
        >(script),
{
    script_reads_back(script);
}

/// A field that cannot be read is complained about in its own words, the first in the
/// order of the names.
pub proof fn an_unreadable_field_is_complained_about(fields: Map<Seq<char>, Json>)
    requires
        fields.dom().contains("type"@),
        fields["type"@] == Json::Str("motion-script"@),
    ensures
        ({
            let read = script_of(Ok(Json::Obj(fields)));
            let said = |detail: Seq<char>|
                Err::<ScriptView, DecodeErrorView>(DecodeErrorView::Malformed(detail));
            let no_count = |value: Json|
                "invalid "@ + (if value is Int {
                    "value"@
                } else {
                    "type"@
                }) + ": "@ + json::described(value) + ", expected "@ + "u64"@;
            let pod_reads = fields.dom().contains("pod"@) ==> fields["pod"@] is Str;
            let seq_reads = fields.dom().contains("seq"@) ==> fields["seq"@] is UInt;
            let steps_read = fields.dom().contains("steps"@) ==> timeline_in(
                fields["steps"@],
            ) is Ok;
            &&& !pod_reads ==> read == said(
                "invalid "@ + "type"@ + ": "@ + json::described(fields["pod"@]) + ", expected "@
                    + "a string"@,
            )
            &&& pod_reads && !seq_reads ==> read == said(no_count(fields["seq"@]))
            &&& pod_reads && seq_reads && !steps_read ==> read == said(
                timeline_in(fields["steps"@])->Err_0,
            )
            &&& pod_reads && seq_reads && steps_read && fields.dom().contains("timeout_ms"@) && !(
            fields["timeout_ms"@] is UInt) ==> read == said(no_count(fields["timeout_ms"@]))
        }),
{
}

/// A step that is none is complained about in its own words: what cannot be read before
/// what is not there, and the offset before the posture.
pub proof fn a_broken_step_is_complained_about(
    value: Json,
    fields: Map<Seq<char>, Json>,
    items: Seq<Json>,
)
    ensures
        ({
            let no_count = |value: Json|
                "invalid "@ + (if value is Int {
                    "value"@
                } else {
                    "type"@
                }) + ": "@ + json::described(value) + ", expected "@ + "u64"@;
            let spelt = |value: Json| json::choice_in(value, "up"@, "stow"@);
            let timed = fields.dom().contains("after_ms"@);
            let posed = fields.dom().contains("posture"@);
            let after_ms = fields["after_ms"@];
            let posture = fields["posture"@];
            let by_fields = step_in(Json::Obj(fields));
            let by_items = step_in(Json::Arr(items));
            let said = |detail: Seq<char>| Err::<StepView, Seq<char>>(detail);
            &&& timed && !(after_ms is UInt) ==> by_fields == said(no_count(after_ms))
            &&& (timed ==> after_ms is UInt) && posed && spelt(posture) is Err ==> by_fields
                == said(spelt(posture)->Err_0)
            &&& !timed && (posed ==> spelt(posture) is Ok) ==> by_fields == said(
                "missing field `after_ms`"@,
            )
            &&& timed && after_ms is UInt && !posed ==> by_fields == said(
                "missing field `posture`"@,
            )
            &&& items.len() > 0 && !(items[0] is UInt) ==> by_items == said(no_count(items[0]))
            &&& items.len() > 1 && items[0] is UInt && spelt(items[1]) is Err ==> by_items == said(
                spelt(items[1])->Err_0,
            )
            &&& items.len() == 0 || (items.len() == 1 && items[0] is UInt) ==> by_items == said(
                "invalid length "@ + text::decimal(items.len())
                    + ", expected struct Step with 2 elements"@,
            )
            &&& items.len() > 2 && items[0] is UInt && spelt(items[1]) is Ok ==> by_items == said(
                "invalid length "@ + text::decimal(items.len())
                    + ", expected fewer elements in array"@,
            )
        }),
        !(value is Obj) && !(value is Arr) ==> step_in(value) == Err::<StepView, Seq<char>>(
            "invalid "@ + "type"@ + ": "@ + json::described(value) + ", expected "@
                + "struct Step"@,
        ),
        !(value is Arr) ==> timeline_in(value) == Err::<Seq<StepView>, Seq<char>>(
            "invalid "@ + "type"@ + ": "@ + json::described(value) + ", expected "@ + "a sequence"@,
        ),
{
}

/// A refusal says whether the body is no JSON, another message, no proper script, or one
/// that cannot be executed, and why.
pub proof fn a_refusal_says_what_the_body_is(said: Seq<char>, e: ScriptError)
    ensures
        decode_error_text(DecodeErrorView::NotJson(said)) == "the body is not json: "@ + said,
        decode_error_text(DecodeErrorView::WrongType(said)) == "the body is a `"@ + said
            + "` message, not a `motion-script` one"@,
        decode_error_text(DecodeErrorView::Malformed(said))
            == "the body is not a well-formed `motion-script` message: "@ + said,
        decode_error_text(DecodeErrorView::Invalid(e)) == "the script is not executable: "@
            + script::script_error_text(e),
{
}

/// A refusal is known by its words as they are.
pub proof fn a_refusal_is_its_words(said: String, e: ScriptError)
    ensures
        (DecodeError::NotJson { detail: said })@ == DecodeErrorView::NotJson(said@),
        (DecodeError::WrongType { kind: said })@ == DecodeErrorView::WrongType(said@),
        (DecodeError::Malformed { detail: said })@ == DecodeErrorView::Malformed(said@),
        DecodeError::Invalid(e)@ == DecodeErrorView::Invalid(e),
{
}

/// A timeline has postures only where every one of its steps names one.
pub proof fn postures_are_named_step_by_step(steps: Seq<StepView>, step: StepView)
    ensures
        names_postures(seq![]),
        names_postures(steps.push(step)) <==> names_postures(steps) && (step.action
            == ActionView::Base(Base::Posture(Posture::Up)) || step.action == ActionView::Base(
            Base::Posture(Posture::Stow),
        )),
{
    let longer = steps.push(step);
    if names_postures(longer) {
        assert(longer[steps.len() as int] == step);
        assert forall|i: int| 0 <= i < steps.len() implies #[trigger] steps[i] == longer[i] by {}
    }
}

} // verus!
