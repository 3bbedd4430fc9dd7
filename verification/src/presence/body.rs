//! What a presence intent says, and its text on the bus.
//!
//! Unknown fields are ignored, so that a newer publisher may add one. An unknown
//! state is a refusal: a guess would move a head.

use vstd::prelude::*;

use crate::json::{
    self, as_text, get, parse, push_count_field, push_string_field, read_choice, read_count,
    read_text, Body, Field, Json, Leaf,
};
use crate::text::{push_text, same_text};

verus! {

/// The discriminator every presence body carries.
pub const PRESENCE_TYPE: &'static str = "presence";

/// What the head should be doing.
#[derive(Debug, Clone, Copy, PartialEq, Eq, Structural)]
pub enum PresenceState {
    /// An interaction is live: the head belongs up.
    Engaged,
    /// Nothing is happening: the head belongs stowed.
    Idle,
}

impl PresenceState {
    /// The state as the wire spells it.
    pub open spec fn spelling(self) -> Seq<char> {
        match self {
            PresenceState::Engaged => "engaged"@,
            PresenceState::Idle => "idle"@,
        }
    }

    /// The state as the wire spells it.
    pub fn as_str(self) -> (r: &'static str)
        ensures
            r@ == self.spelling(),
    {
        match self {
            PresenceState::Engaged => "engaged",
            PresenceState::Idle => "idle",
        }
    }
}

/// One presence intent, addressed to one pod.
#[derive(Debug, PartialEq, Eq)]
pub struct PresenceBody {
    /// Whose head this is about.
    pub pod: String,
    /// The desired state.
    pub state: PresenceState,
    /// The publisher's counter, for observation only: it has no say in which
    /// intent wins.
    pub seq: u64,
}

/// A [`PresenceBody`] as a mathematical value.
#[verifier::ext_equal]
pub struct PresenceView {
    /// Whose head it is about.
    pub pod: Seq<char>,
    /// The desired state.
    pub state: PresenceState,
    /// The publisher's counter.
    pub seq: u64,
}

impl View for PresenceBody {
    type V = PresenceView;

    open spec fn view(&self) -> PresenceView {
        PresenceView { pod: self.pod@, state: self.state, seq: self.seq }
    }
}

/// Why a body did not decode.
#[derive(Debug, PartialEq, Eq)]
pub enum DecodeError {
    /// The body is not JSON at all.
    NotJson {
        /// What the parser said.
        detail: String,
    },
    /// The body is some other message on this channel.
    WrongType {
        /// The discriminator it carried.
        kind: String,
    },
    /// The body claims to be a presence body and does not hold one.
    Malformed {
        /// What is wrong with it.
        detail: String,
    },
}

/// A [`DecodeError`] as a mathematical value.
pub enum DecodeErrorView {
    /// The body is not JSON at all.
    NotJson(Seq<char>),
    /// The body is some other message.
    WrongType(Seq<char>),
    /// The body does not hold a presence intent.
    Malformed(Seq<char>),
}

impl View for DecodeError {
    type V = DecodeErrorView;

    open spec fn view(&self) -> DecodeErrorView {
        match self {
            DecodeError::NotJson { detail } => DecodeErrorView::NotJson(detail@),
            DecodeError::WrongType { kind } => DecodeErrorView::WrongType(kind@),
            DecodeError::Malformed { detail } => DecodeErrorView::Malformed(detail@),
        }
    }
}

/// The refusal as operators read it.
pub open spec fn decode_error_text(e: DecodeErrorView) -> Seq<char> {
    match e {
        DecodeErrorView::NotJson(detail) => "the body is not json: "@ + detail,
        DecodeErrorView::WrongType(kind) => "the body is a `"@ + kind
            + "` message, not a `presence` one"@,
        DecodeErrorView::Malformed(detail) => "the body is not a well-formed `presence` message: "@
            + detail,
    }
}

impl DecodeError {
    /// The refusal as operators read it.
    pub fn text(&self) -> (r: String)
        ensures
            r@ == decode_error_text(self@),
    {
        let mut out = String::new();
        match self {
            DecodeError::NotJson { detail } => {
                push_text(&mut out, "the body is not json: ");
                push_text(&mut out, detail.as_str());
            },
            DecodeError::WrongType { kind } => {
                push_text(&mut out, "the body is a `");
                push_text(&mut out, kind.as_str());
                push_text(&mut out, "` message, not a `presence` one");
            },
            DecodeError::Malformed { detail } => {
                push_text(&mut out, "the body is not a well-formed `presence` message: ");
                push_text(&mut out, detail.as_str());
            },
        }
        assert(out@ =~= decode_error_text(self@));
        out
    }
}

/// An intent's body.
pub open spec fn presence_body(body: PresenceView) -> Body {
    seq![
        ("type"@, Field::Leaf(Leaf::Str("presence"@))),
        ("pod"@, Field::Leaf(Leaf::Str(body.pod))),
        ("state"@, Field::Leaf(Leaf::Str(body.state.spelling()))),
        ("seq"@, Field::Leaf(Leaf::UInt(body.seq))),
    ]
}

/// An intent's text on the bus.
pub open spec fn presence_text(body: PresenceView) -> Seq<char> {
    json::body_text(presence_body(body))
}

/// The state a value spells, or what is wrong with it.
pub open spec fn state_in(value: Json) -> Result<PresenceState, Seq<char>> {
    match json::choice_in(value, "engaged"@, "idle"@) {
        Ok(engaged) => Ok(
            if engaged {
                PresenceState::Engaged
            } else {
                PresenceState::Idle
            },
        ),
        Err(detail) => Err(detail),
    }
}

/// What is wrong with the first field that is there and cannot be read, in the order
/// of the names.
pub open spec fn unreadable_field(fields: Map<Seq<char>, Json>) -> Option<Seq<char>> {
    if fields.dom().contains("pod"@) && !(fields["pod"@] is Str) {
        Some(json::type_refusal(fields["pod"@], "a string"@))
    } else if fields.dom().contains("seq"@) && fields["seq"@] is Int {
        Some(json::value_refusal(fields["seq"@], "u64"@))
    } else if fields.dom().contains("seq"@) && !(fields["seq"@] is UInt) {
        Some(json::type_refusal(fields["seq"@], "u64"@))
    } else if fields.dom().contains("state"@) && state_in(fields["state"@]) is Err {
        Some(state_in(fields["state"@])->Err_0)
    } else {
        None
    }
}

/// A field that is not there.
pub open spec fn missing_field(fields: Map<Seq<char>, Json>) -> Option<Seq<char>> {
    if !fields.dom().contains("pod"@) {
        Some("missing field `pod`"@)
    } else if !fields.dom().contains("state"@) {
        Some("missing field `state`"@)
    } else if !fields.dom().contains("seq"@) {
        Some("missing field `seq`"@)
    } else {
        None
    }
}

/// The intent the fields of an object hold.
pub open spec fn presence_in(fields: Map<Seq<char>, Json>) -> Result<
    PresenceView,
    DecodeErrorView,
> {
    match unreadable_field(fields) {
        Some(detail) => Err(DecodeErrorView::Malformed(detail)),
        None => match missing_field(fields) {
            Some(detail) => Err(DecodeErrorView::Malformed(detail)),
            None => Ok(
                PresenceView {
                    pod: fields["pod"@]->Str_0,
                    state: state_in(fields["state"@])->Ok_0,
                    seq: fields["seq"@]->UInt_0,
                },
            ),
        },
    }
}

/// The intent a body holds. Its discriminator is looked at first, so that a body
/// of another kind is reported as that and not as a malformed intent.
pub open spec fn presence_of(read: Result<Json, Seq<char>>) -> Result<
    PresenceView,
    DecodeErrorView,
> {
    match read {
        Err(why) => Err(DecodeErrorView::NotJson(why)),
        Ok(Json::Obj(fields)) => if !fields.dom().contains("type"@) {
            Err(DecodeErrorView::Malformed("no `type` field"@))
        } else {
            match fields["type"@] {
                Json::Str(kind) => if kind == "presence"@ {
                    presence_in(fields)
                } else {
                    Err(DecodeErrorView::WrongType(kind))
                },
                _ => Err(DecodeErrorView::Malformed("no `type` field"@)),
            }
        },
        Ok(_) => Err(DecodeErrorView::Malformed("no `type` field"@)),
    }
}

/// The state a value spells.
fn read_state(value: &serde_json::Value) -> (r: Result<PresenceState, String>)
    ensures
        json::outcome(r) == state_in(json::json_of(*value)),
{
    match read_choice(value, "engaged", "idle") {
        Ok(engaged) => Ok(
            if engaged {
                PresenceState::Engaged
            } else {
                PresenceState::Idle
            },
        ),
        Err(said) => Err(said),
    }
}

fn malformed(detail: &str) -> (r: DecodeError)
    ensures
        r@ == DecodeErrorView::Malformed(detail@),
{
    DecodeError::Malformed { detail: detail.to_owned() }
}

/// The intent the fields of an object hold.
fn read_presence(value: &serde_json::Value) -> (r: Result<PresenceBody, DecodeError>)
    requires
        json::json_of(*value) is Obj,
    ensures
        match presence_in(json::json_of(*value)->Obj_0) {
            Ok(body) => r matches Ok(found) && found@ == body,
            Err(e) => r matches Err(found) && found@ == e,
        },
{
    let pod = match get(value, "pod") {
        Some(v) => match read_text(v) {
            Ok(s) => Some(s),
            Err(detail) => {
                return Err(DecodeError::Malformed { detail });
            },
        },
        None => None,
    };
    let seq = match get(value, "seq") {
        Some(v) => match read_count(v) {
            Ok(n) => Some(n),
            Err(detail) => {
                return Err(DecodeError::Malformed { detail });
            },
        },
        None => None,
    };
    let state = match get(value, "state") {
        Some(v) => match read_state(v) {
            Ok(state) => Some(state),
            Err(detail) => {
                return Err(DecodeError::Malformed { detail });
            },
        },
        None => None,
    };
    match (pod, state, seq) {
        (None, _, _) => Err(malformed("missing field `pod`")),
        (_, None, _) => Err(malformed("missing field `state`")),
        (_, _, None) => Err(malformed("missing field `seq`")),
        (Some(pod), Some(state), Some(seq)) => Ok(PresenceBody { pod, state, seq }),
    }
}

proof fn presence_body_is_proper(body: PresenceView)
    ensures
        json::is_proper(presence_body(body)),
{
    reveal_strlit("type");
    reveal_strlit("pod");
    reveal_strlit("state");
    reveal_strlit("seq");
    let fields = presence_body(body);
    assert("pod"@[0] != "seq"@[0]);
    assert("type"@.len() == 4 && "pod"@.len() == 3 && "state"@.len() == 5 && "seq"@.len() == 3);
    assert forall|i: int, j: int| 0 <= i < j < fields.len() implies (#[trigger] fields[i]).0 != (
    #[trigger] fields[j]).0 by {
        assert(fields[0].0 == "type"@ && fields[1].0 == "pod"@ && fields[2].0 == "state"@
            && fields[3].0 == "seq"@);
        assert(i == 0 || i == 1 || i == 2);
        assert(j == 1 || j == 2 || j == 3);
    }
}

proof fn presence_reads_back(body: PresenceView)
    ensures
        presence_of(Ok(Json::Obj(json::body_json(presence_body(body))))) == Ok::<
            PresenceView,
            DecodeErrorView,
        >(body),
{
    let fields = presence_body(body);
    presence_body_is_proper(body);
    json::body_json_holds_its_fields(fields);
    assert(fields[0].0 == "type"@ && fields[1].0 == "pod"@ && fields[2].0 == "state"@
        && fields[3].0 == "seq"@);
    reveal_strlit("engaged");
    reveal_strlit("idle");
    assert("engaged"@.len() != "idle"@.len());
}

impl PresenceBody {
    /// A body for `pod` in `state`, numbered `seq`.
    pub fn new(pod: &str, state: PresenceState, seq: u64) -> (r: PresenceBody)
        ensures
            r@ == (PresenceView { pod: pod@, state, seq }),
    {
        PresenceBody { pod: pod.to_owned(), state, seq }
    }

    /// This body as the JSON text a bus body carries.
    pub fn encode(&self) -> (r: String)
        ensures
            r@ == presence_text(self@),
    {
        let mut out = String::new();
        out.push('{');
        push_string_field(&mut out, "type", PRESENCE_TYPE);
        out.push(',');
        push_string_field(&mut out, "pod", self.pod.as_str());
        out.push(',');
        push_string_field(&mut out, "state", self.state.as_str());
        out.push(',');
        push_count_field(&mut out, "seq", self.seq);
        out.push('}');
        proof {
            let body = presence_body(self@);
            let a = json::pair_text("type"@, json::field_text(body[0].1));
            let b = json::pair_text("pod"@, json::field_text(body[1].1));
            let c = json::pair_text("state"@, json::field_text(body[2].1));
            let d = json::pair_text("seq"@, json::field_text(body[3].1));
            assert(body.map_values(
                |f: (Seq<char>, Field)| json::pair_text(f.0, json::field_text(f.1)),
            ) =~= seq![a, b, c, d]);
            json::comma_joined_four(a, b, c, d);
            assert(out@ =~= presence_text(self@));
        }
        out
    }

    /// A body out of the JSON text a delivery carried. What it says of a text goes
    /// by what the parser makes of it; the text of an intent is read back as that
    /// intent.
    pub fn decode(text: &str) -> (r: Result<PresenceBody, DecodeError>)
        ensures
            match presence_of(json::parsed(text@)) {
                Ok(body) => r matches Ok(found) && found@ == body,
                Err(e) => r matches Err(found) && found@ == e,
            },
            forall|body: PresenceView|
                text@ == #[trigger] presence_text(body) ==> (r matches Ok(found) && found@ == body),
    {
        let read = parse(text);
        proof {
            assert forall|body: PresenceView| text@ == #[trigger] presence_text(
                body,
            ) implies presence_of(json::parsed(text@)) == Ok::<PresenceView, DecodeErrorView>(
                body,
            ) by {
                presence_body_is_proper(body);
                presence_reads_back(body);
                assert(text@ == json::body_text(presence_body(body)));
            }
        }
        PresenceBody::from_value(read)
    }

    /// The intent that a parsed body holds, given what parsing it came to.
    pub fn from_value(read: Result<serde_json::Value, String>) -> (r: Result<
        PresenceBody,
        DecodeError,
    >)
        ensures
            match presence_of(json::content(read)) {
                Ok(body) => r matches Ok(found) && found@ == body,
                Err(e) => r matches Err(found) && found@ == e,
            },
    {
        let value = match read {
            Ok(value) => value,
            Err(detail) => {
                return Err(DecodeError::NotJson { detail });
            },
        };
        let kind = match get(&value, "type") {
            Some(kind) => kind,
            None => {
                return Err(malformed("no `type` field"));
            },
        };
        match as_text(kind) {
            Some(kind) => {
                if same_text(kind, PRESENCE_TYPE) {
                    read_presence(&value)
                } else {
                    Err(DecodeError::WrongType { kind: kind.to_owned() })
                }
            },
            None => Err(malformed("no `type` field")),
        }
    }
}

/// A field nobody knows makes no difference.
pub proof fn an_unknown_field_is_ignored(
    fields: Map<Seq<char>, Json>,
    key: Seq<char>,
    value: Json,
)
    requires
        key != "type"@,
        key != "pod"@,
        key != "state"@,
        key != "seq"@,
    ensures
        presence_of(Ok(Json::Obj(fields.insert(key, value)))) == presence_of(
            Ok(Json::Obj(fields)),
        ),
{
    let grown = fields.insert(key, value);
    assert(grown.dom().contains("type"@) == fields.dom().contains("type"@));
    assert(grown.dom().contains("pod"@) == fields.dom().contains("pod"@));
    assert(grown.dom().contains("state"@) == fields.dom().contains("state"@));
    assert(grown.dom().contains("seq"@) == fields.dom().contains("seq"@));
}

/// A body is sorted by its discriminator before anything in it is read: what is not
/// JSON, what has no discriminator, and what is another message are told apart.
pub proof fn a_body_is_sorted_by_its_type(
    why: Seq<char>,
    value: Json,
    fields: Map<Seq<char>, Json>,
    kind: Seq<char>,
)
    ensures
        presence_of(Err(why)) == Err::<PresenceView, DecodeErrorView>(
            DecodeErrorView::NotJson(why),
        ),
        !(value is Obj) ==> presence_of(Ok(value)) == Err::<PresenceView, DecodeErrorView>(
            DecodeErrorView::Malformed("no `type` field"@),
        ),
        !fields.dom().contains("type"@) || !(fields["type"@] is Str) ==> presence_of(
            Ok(Json::Obj(fields)),
        ) == Err::<PresenceView, DecodeErrorView>(DecodeErrorView::Malformed("no `type` field"@)),
        fields.dom().contains("type"@) && fields["type"@] == Json::Str(kind) && kind
            != "presence"@ ==> presence_of(Ok(Json::Obj(fields))) == Err::<
            PresenceView,
            DecodeErrorView,
        >(DecodeErrorView::WrongType(kind)),
{
}

/// An intent is read field by field: the pod as its string, the number as its count, and
/// the state only where it is one of the two names. A guess would move a head.
pub proof fn an_intent_is_read_field_by_field(
    fields: Map<Seq<char>, Json>,
    pod: Seq<char>,
    seq: u64,
    name: Seq<char>,
)
    requires
        fields.dom().contains("type"@),
        fields["type"@] == Json::Str("presence"@),
        fields.dom().contains("pod"@),
        fields["pod"@] == Json::Str(pod),
        fields.dom().contains("seq"@),
        fields["seq"@] == Json::UInt(seq),
        fields.dom().contains("state"@),
        fields["state"@] == Json::Str(name),
    ensures
        name == "engaged"@ ==> presence_of(Ok(Json::Obj(fields))) == Ok::<
            PresenceView,
            DecodeErrorView,
        >(PresenceView { pod, state: PresenceState::Engaged, seq }),
        name == "idle"@ ==> presence_of(Ok(Json::Obj(fields))) == Ok::<
            PresenceView,
            DecodeErrorView,
        >(PresenceView { pod, state: PresenceState::Idle, seq }),
        name != "engaged"@ && name != "idle"@ ==> presence_of(Ok(Json::Obj(fields))) matches Err(
            DecodeErrorView::Malformed(_),
        ),
{
    reveal_strlit("engaged");
    reveal_strlit("idle");
    assert("engaged"@.len() != "idle"@.len());
}

/// What is read as an intent is one: every field was there, of its own sort, and holds
/// what the intent says.
pub proof fn nothing_is_made_up(read: Result<Json, Seq<char>>)
    requires
        presence_of(read) is Ok,
    ensures
        read matches Ok(Json::Obj(fields)) && {
            let body = presence_of(read)->Ok_0;
            &&& fields.dom().contains("type"@) && fields["type"@] == Json::Str("presence"@)
            &&& fields.dom().contains("pod"@) && fields["pod"@] == Json::Str(body.pod)
            &&& fields.dom().contains("seq"@) && fields["seq"@] == Json::UInt(body.seq)
            &&& fields.dom().contains("state"@)
        },
{
}

/// A field that is not there is named, where all that are there can be read.
pub proof fn a_missing_field_is_named(fields: Map<Seq<char>, Json>)
    requires
        fields.dom().contains("type"@),
        fields["type"@] == Json::Str("presence"@),
        fields.dom().contains("pod"@) ==> fields["pod"@] is Str,
        fields.dom().contains("seq"@) ==> fields["seq"@] is UInt,
        fields.dom().contains("state"@) ==> fields["state"@] == Json::Str("engaged"@)
            || fields["state"@] == Json::Str("idle"@),
    ensures
        ({
            let read = presence_of(Ok(Json::Obj(fields)));
            let missing = |name: Seq<char>|
                Err::<PresenceView, DecodeErrorView>(DecodeErrorView::Malformed(name));
            &&& !fields.dom().contains("pod"@) ==> read == missing("missing field `pod`"@)
            &&& fields.dom().contains("pod"@) && !fields.dom().contains("state"@) ==> read
                == missing("missing field `state`"@)
            &&& fields.dom().contains("pod"@) && fields.dom().contains("state"@)
                && !fields.dom().contains("seq"@) ==> read == missing("missing field `seq`"@)
        }),
{
    reveal_strlit("engaged");
    reveal_strlit("idle");
    assert("engaged"@.len() != "idle"@.len());
}

/// A field of the wrong sort is never read around: the intent is refused.
pub proof fn a_wrong_field_is_refused(fields: Map<Seq<char>, Json>)
    requires
        fields.dom().contains("type"@),
        fields["type"@] == Json::Str("presence"@),
        (fields.dom().contains("pod"@) && !(fields["pod"@] is Str)) || (fields.dom().contains(
            "seq"@,
        ) && !(fields["seq"@] is UInt)) || (fields.dom().contains("state"@)
            && !(fields["state"@] is Str) && !(fields["state"@] is Obj)),
    ensures
        presence_of(Ok(Json::Obj(fields))) matches Err(DecodeErrorView::Malformed(_)),
{
}

/// An intent is written as an object of four fields, in this order, with its state by
/// name.
pub proof fn an_intent_is_written_in_four_fields(pod: Seq<char>, seq: u64)
    ensures
        presence_body(PresenceView { pod, state: PresenceState::Engaged, seq }) == seq![
            ("type"@, Field::Leaf(Leaf::Str("presence"@))),
            ("pod"@, Field::Leaf(Leaf::Str(pod))),
            ("state"@, Field::Leaf(Leaf::Str("engaged"@))),
            ("seq"@, Field::Leaf(Leaf::UInt(seq))),
        ],
        presence_body(PresenceView { pod, state: PresenceState::Idle, seq }) == seq![
            ("type"@, Field::Leaf(Leaf::Str("presence"@))),
            ("pod"@, Field::Leaf(Leaf::Str(pod))),
            ("state"@, Field::Leaf(Leaf::Str("idle"@))),
            ("seq"@, Field::Leaf(Leaf::UInt(seq))),
        ],
{
}

/// What was written is read back: the content of an intent's text is that intent.
pub proof fn an_intent_survives_the_wire(body: PresenceView)
    ensures
        presence_of(Ok(Json::Obj(json::body_json(presence_body(body))))) == Ok::<
            PresenceView,
            DecodeErrorView,
        >(body),
{
    presence_reads_back(body);
}

/// A field that cannot be read is complained about in its own words, the first in the
/// order of the names.
pub proof fn an_unreadable_field_is_complained_about(fields: Map<Seq<char>, Json>)
    requires
        fields.dom().contains("type"@),
        fields["type"@] == Json::Str("presence"@),
    ensures
        ({
            let read = presence_of(Ok(Json::Obj(fields)));
            let said = |detail: Seq<char>|
                Err::<PresenceView, DecodeErrorView>(DecodeErrorView::Malformed(detail));
            let pod = fields["pod"@];
            let seq = fields["seq"@];
            let pod_reads = fields.dom().contains("pod"@) ==> pod is Str;
            let seq_reads = fields.dom().contains("seq"@) ==> seq is UInt;
            &&& !pod_reads ==> read == said(
                "invalid "@ + "type"@ + ": "@ + json::described(pod) + ", expected "@
                    + "a string"@,
            )
            &&& pod_reads && !seq_reads && seq is Int ==> read == said(
                "invalid "@ + "value"@ + ": "@ + json::described(seq) + ", expected "@ + "u64"@,
            )
            &&& pod_reads && !seq_reads && !(seq is Int) ==> read == said(
                "invalid "@ + "type"@ + ": "@ + json::described(seq) + ", expected "@ + "u64"@,
            )
            &&& pod_reads && seq_reads && fields.dom().contains("state"@) && json::choice_in(
                fields["state"@],
                "engaged"@,
                "idle"@,
            ) is Err ==> read == said(
                json::choice_in(fields["state"@], "engaged"@, "idle"@)->Err_0,
            )
        }),
{
}

/// A refusal says whether the body is no JSON, another message, or no proper intent, and
/// why.
pub proof fn a_refusal_says_what_the_body_is(said: Seq<char>)
    ensures
        decode_error_text(DecodeErrorView::NotJson(said)) == "the body is not json: "@ + said,
        decode_error_text(DecodeErrorView::WrongType(said)) == "the body is a `"@ + said
            + "` message, not a `presence` one"@,
        decode_error_text(DecodeErrorView::Malformed(said))
            == "the body is not a well-formed `presence` message: "@ + said,
{
}

/// An intent is known by its fields as they are, and so is a refusal.
pub proof fn an_intent_is_its_fields(body: PresenceBody, said: String)
    ensures
        body@.pod == body.pod@,
        body@.state == body.state,
        body@.seq == body.seq,
        (DecodeError::NotJson { detail: said })@ == DecodeErrorView::NotJson(said@),
        (DecodeError::WrongType { kind: said })@ == DecodeErrorView::WrongType(said@),
        (DecodeError::Malformed { detail: said })@ == DecodeErrorView::Malformed(said@),
{
}

} // verus!
