//! The presence body on the wire, and the lease that it takes.

use respeaker::clock::{Duration, Instant, SYSTEM_CLOCK_END};
use respeaker::presence::body::{DecodeError, PresenceBody, PresenceState};
use respeaker::presence::lease::{Lease, Reduction};

/// A fixed instant to reason from.
fn origin() -> Instant {
    Instant::from_nanos(1_000_000_000)
}

fn ttl() -> Duration {
    Duration::from_secs(15)
}

fn after(at: Instant, span: Duration) -> Instant {
    at.checked_add(span).expect("the clock reaches that far")
}

fn before(at: Instant, millis: u64) -> Instant {
    Instant::from_nanos(at.nanos - u128::from(millis) * 1_000_000)
}

fn engaged(seq: u64) -> PresenceBody {
    PresenceBody::new("reachy00", PresenceState::Engaged, seq)
}

fn idle(seq: u64) -> PresenceBody {
    PresenceBody::new("reachy00", PresenceState::Idle, seq)
}

/// What one side writes, the other side reads — for both states, which is
/// the whole of the vocabulary today.
#[test]
fn a_body_survives_the_wire() {
    for state in [PresenceState::Engaged, PresenceState::Idle] {
        let body = PresenceBody::new("reachy00", state, 7);
        let text = body.encode();
        assert_eq!(PresenceBody::decode(&text).expect("it decodes"), body);
    }
}

/// The encoded shape, spelled out field by field rather than inferred from
/// a round trip: a round trip agrees with itself even
/// when both halves are wrong, and the other end of this channel is written
/// against the text, not against this crate's opinion of it.
#[test]
fn body_the_encoding_is_the_documented_one() {
    let text = PresenceBody::new("reachy00", PresenceState::Engaged, 42).encode();
    let value: serde_json::Value = serde_json::from_str(&text).expect("it is json");
    assert_eq!(value["type"], "presence");
    assert_eq!(value["pod"], "reachy00");
    assert_eq!(value["state"], "engaged");
    assert_eq!(value["seq"], 42);

    let idle = PresenceBody::new("reachy00", PresenceState::Idle, 0).encode();
    let value: serde_json::Value = serde_json::from_str(&idle).expect("it is json");
    assert_eq!(value["state"], "idle");
}

/// The spelling a consumer logs and the spelling that crosses the wire are
/// the same one, checked against the encoding rather than against a second
/// copy of the table.
#[test]
fn the_state_names_itself_the_way_the_wire_does() {
    for state in [PresenceState::Engaged, PresenceState::Idle] {
        let text = PresenceBody::new("reachy00", state, 1).encode();
        let value: serde_json::Value = serde_json::from_str(&text).expect("it is json");
        assert_eq!(value["state"], state.as_str());
        assert_eq!(state.as_str(), state.as_str());
    }
}

/// A field this consumer has never heard of is not a reason to drop the
/// intent. The channel is meant to grow, and the publisher that grows first
/// must not take the head down with it.
#[test]
fn body_a_field_nobody_here_knows_is_ignored() {
    let text = r#"{"type":"presence","pod":"reachy00","state":"engaged","seq":3,
                   "reason":"wake","gaze":{"az":0.2,"el":-0.1}}"#;
    let body = PresenceBody::decode(text).expect("the fields it needs are all there");
    assert_eq!(
        body,
        PresenceBody::new("reachy00", PresenceState::Engaged, 3)
    );
}

/// Another tenant of the same channel is reported as another tenant. The
/// consumer skips it; nothing about it is a failure.
#[test]
fn body_a_message_of_another_kind_says_so() {
    let text = r#"{"type":"gaze","pod":"reachy00","az":0.2}"#;
    match PresenceBody::decode(text).expect_err("not a presence body") {
        DecodeError::WrongType { kind } => assert_eq!(kind, "gaze"),
        other => panic!("expected a wrong-type report, got {other:?}"),
    }
}

/// The three malformed shapes, each reported as what it is. A state nobody
/// has defined is refused rather than guessed at: the states are the
/// message's whole meaning, and a guess here moves a head.
#[test]
fn a_body_that_is_not_one_is_reported_rather_than_guessed_at() {
    let not_json = PresenceBody::decode("{not json").expect_err("it is not json");
    assert!(
        matches!(not_json, DecodeError::NotJson { .. }),
        "{not_json:?}"
    );

    let untyped = PresenceBody::decode(r#"{"pod":"reachy00","state":"idle","seq":1}"#)
        .expect_err("no discriminator");
    assert!(
        matches!(untyped, DecodeError::Malformed { .. }),
        "{untyped:?}"
    );

    for text in [
        r#"{"type":"presence","pod":"reachy00","seq":1}"#,
        r#"{"type":"presence","state":"idle","seq":1}"#,
        r#"{"type":"presence","pod":"reachy00","state":"idle"}"#,
        r#"{"type":"presence","pod":"reachy00","state":"lurking","seq":1}"#,
        r#"{"type":"presence","pod":"reachy00","state":"idle","seq":-1}"#,
    ] {
        let refused = PresenceBody::decode(text).expect_err("a field is missing or unreadable");
        assert!(
            matches!(refused, DecodeError::Malformed { .. }),
            "{text}: {refused:?}"
        );
    }
}

/// The refusal reads as a sentence naming the message type, because it goes
/// into a log line an operator reads without this file open beside it.
#[test]
fn body_a_refusal_names_what_was_expected() {
    let refused = PresenceBody::decode(r#"{"type":"gaze"}"#).expect_err("not presence");
    let printed = refused.text();
    assert!(printed.contains("presence"), "{printed}");
    assert!(printed.contains("gaze"), "{printed}");
}

/// Nothing has been heard, so nothing is up. A consumer that starts mid
/// conversation stows until an intent arrives, rather than assuming the
/// state it was in before it restarted.
#[test]
fn a_fresh_lease_is_idle() {
    let lease = Lease::new("reachy00");
    assert_eq!(lease.desired(origin()), PresenceState::Idle);
    assert_eq!(lease.seq(), None);
    assert_eq!(lease.until(), None);
    assert_eq!(lease.pod(), "reachy00");
}

/// The lease is a term, not a latch: engaged until the term runs out, idle
/// after. This is the property the whole failure story rests on — a
/// publisher that dies stops refreshing, and the head comes down by itself.
#[test]
fn an_engaged_lease_runs_out() {
    let start = origin();
    let mut lease = Lease::new("reachy00");

    assert_eq!(
        lease.apply(&engaged(1), start, ttl()),
        Reduction::Engaged { until: after(start, ttl()) }
    );
    assert_eq!(lease.desired(start), PresenceState::Engaged);
    assert_eq!(
        lease.desired(before(after(start, ttl()), 1)),
        PresenceState::Engaged
    );
    // The boundary belongs to idle: at the deadline the term is spent.
    assert_eq!(lease.desired(after(start, ttl())), PresenceState::Idle);
    assert_eq!(
        lease.desired(after(after(start, ttl()), Duration::from_secs(60))),
        PresenceState::Idle
    );
}

/// A refresh inside the term extends it from when it arrived, so a
/// conversation that keeps going keeps the head up without the publisher
/// having to know how long the term is.
#[test]
fn a_refresh_extends_the_term_from_its_arrival() {
    let start = origin();
    let mut lease = Lease::new("reachy00");
    lease.apply(&engaged(1), start, ttl());

    let refreshed_at = after(start, Duration::from_secs(5));
    assert_eq!(
        lease.apply(&engaged(2), refreshed_at, ttl()),
        Reduction::Engaged {
            until: after(refreshed_at, ttl())
        }
    );
    // Past the original deadline, still up, because the refresh moved it.
    assert_eq!(lease.desired(after(start, ttl())), PresenceState::Engaged);
    assert_eq!(lease.desired(after(refreshed_at, ttl())), PresenceState::Idle);
}

/// A duplicate delivery is not an event. It refreshes the clock and says
/// the same thing, which is what makes a live-only subscription with a
/// republishing publisher safe to reduce naively.
#[test]
fn duplicates_are_idempotent() {
    let start = origin();
    let mut lease = Lease::new("reachy00");

    lease.apply(&engaged(1), start, ttl());
    lease.apply(&engaged(1), start, ttl());
    assert_eq!(lease.desired(start), PresenceState::Engaged);
    assert_eq!(lease.until(), Some(after(start, ttl())));

    lease.apply(&idle(2), start, ttl());
    lease.apply(&idle(2), start, ttl());
    assert_eq!(lease.desired(start), PresenceState::Idle);
}

/// An explicit idle does not wait for the term to run out. The common case
/// — a conversation that ended — should stow now, not in fifteen seconds.
#[test]
fn an_explicit_idle_ends_the_lease_at_once() {
    let start = origin();
    let mut lease = Lease::new("reachy00");
    lease.apply(&engaged(1), start, ttl());

    assert_eq!(lease.apply(&idle(2), start, ttl()), Reduction::Idle);
    assert_eq!(lease.desired(start), PresenceState::Idle);
    assert_eq!(lease.until(), None);
}

/// A later engaged intent re-takes a lease that was released. Nothing about
/// going idle is terminal — the next wake word raises the head again.
#[test]
fn a_released_lease_can_be_retaken() {
    let start = origin();
    let mut lease = Lease::new("reachy00");
    lease.apply(&engaged(1), start, ttl());
    lease.apply(&idle(2), start, ttl());

    let again = after(start, Duration::from_secs(30));
    lease.apply(&engaged(3), again, ttl());
    assert_eq!(lease.desired(again), PresenceState::Engaged);
}

/// Another machine's intent moves nothing here, in either direction: it
/// neither raises this head nor stows it, and it is not recorded as
/// something this lease has seen.
#[test]
fn another_pods_intent_is_reported_and_ignored() {
    let start = origin();
    let mut lease = Lease::new("reachy00");
    lease.apply(&engaged(1), start, ttl());

    let foreign_engaged = PresenceBody::new("reachy01", PresenceState::Engaged, 99);
    let foreign_idle = PresenceBody::new("reachy01", PresenceState::Idle, 100);

    assert_eq!(
        lease.apply(&foreign_idle, start, ttl()),
        Reduction::Foreign,
        "somebody else's idle does not stow this head"
    );
    assert_eq!(lease.desired(start), PresenceState::Engaged);
    assert_eq!(lease.seq(), Some(1), "a foreign body is not this stream");

    lease.apply(&idle(2), start, ttl());
    assert_eq!(
        lease.apply(&foreign_engaged, start, ttl()),
        Reduction::Foreign
    );
    assert_eq!(
        lease.desired(start),
        PresenceState::Idle,
        "somebody else's engaged does not raise this head"
    );
}

/// The sequence number is observable — a consumer can log the stream and
/// see a gap — and it is not authority. An intent numbered below the last
/// one still applies, because a publisher that restarted counts from zero
/// and a seq-ordered consumer would ignore it forever.
#[test]
fn the_sequence_number_is_observable_and_not_authority() {
    let start = origin();
    let mut lease = Lease::new("reachy00");

    lease.apply(&engaged(41), start, ttl());
    assert_eq!(lease.seq(), Some(41));

    lease.apply(&idle(42), start, ttl());
    assert_eq!(lease.seq(), Some(42));

    // A restarted publisher, counting again from the beginning.
    lease.apply(&engaged(0), start, ttl());
    assert_eq!(lease.seq(), Some(0));
    assert_eq!(lease.desired(start), PresenceState::Engaged);
}

/// A term the clock cannot represent lands the head where every other
/// failure lands it. The alternative — saturating to the far future — is a
/// lease that never lapses, which is the one outcome this design refuses.
#[test]
fn an_unrepresentable_term_is_idle_rather_than_forever() {
    let start = origin();
    let mut lease = Lease::new("reachy00");

    let reduction = lease.apply(&engaged(1), start, Duration::max());
    assert_eq!(reduction, Reduction::Engaged { until: start });
    assert_eq!(lease.desired(start), PresenceState::Idle);
}

#[test]
fn the_encoding_escapes_what_json_must() {
    let text = PresenceBody::new("a\"b\\c\n", PresenceState::Idle, 3).encode();
    assert_eq!(
        text,
        r#"{"type":"presence","pod":"a\"b\\c\n","state":"idle","seq":3}"#
    );
    let back = PresenceBody::decode(&text).expect("it decodes");
    assert_eq!(back.pod, "a\"b\\c\n");
}

#[test]
fn a_state_may_be_spelled_as_an_object_with_one_key() {
    let text = r#"{"type":"presence","pod":"p","state":{"idle":null},"seq":1}"#;
    let body = PresenceBody::decode(text).expect("it decodes");
    assert_eq!(body.state, PresenceState::Idle);
    for (state, detail) in [
        (r#"{"idle":1}"#, "invalid type: integer `1`, expected unit"),
        (
            r#"{"idle":null,"engaged":null}"#,
            "invalid value: map, expected map with a single key",
        ),
        ("{}", "invalid value: map, expected map with a single key"),
        ("7", "invalid type: integer `7`, expected string or map"),
        ("[]", "invalid type: sequence, expected string or map"),
        ("null", "invalid type: null, expected string or map"),
        (r#""up""#, "unknown variant `up`, expected `engaged` or `idle`"),
        (r#"{"up":3}"#, "unknown variant `up`, expected `engaged` or `idle`"),
    ] {
        let text = format!(r#"{{"type":"presence","pod":"p","state":{state},"seq":1}}"#);
        let refused = PresenceBody::decode(&text).expect_err("no state");
        assert_eq!(refused, DecodeError::Malformed { detail: detail.to_owned() }, "{state}");
    }
}

#[test]
fn each_refusal_of_a_body_says_what_is_wrong() {
    let cases = [
        (r#"{"pod":"p"}"#, "no `type` field"),
        (r#"{"type":3}"#, "no `type` field"),
        (r#"[]"#, "no `type` field"),
        (r#"{"type":"presence","pod":4,"seq":-1}"#, "invalid type: integer `4`, expected a string"),
        (
            r#"{"type":"presence","pod":"p","seq":1.5}"#,
            "invalid type: floating point `1.5`, expected u64",
        ),
        (
            r#"{"type":"presence","pod":"p","seq":-3}"#,
            "invalid value: integer `-3`, expected u64",
        ),
        (
            r#"{"type":"presence","pod":"p","seq":"a\"b"}"#,
            r#"invalid type: string "a\"b", expected u64"#,
        ),
        (
            r#"{"type":"presence","pod":"p","seq":true}"#,
            "invalid type: boolean `true`, expected u64",
        ),
        (r#"{"type":"presence"}"#, "missing field `pod`"),
        (r#"{"type":"presence","pod":"p"}"#, "missing field `state`"),
        (r#"{"type":"presence","pod":"p","state":"idle"}"#, "missing field `seq`"),
    ];
    for (text, detail) in cases {
        let refused = PresenceBody::decode(text).expect_err("not a body");
        assert_eq!(refused, DecodeError::Malformed { detail: detail.to_owned() }, "{text}");
    }
    let malformed = DecodeError::Malformed { detail: "x".to_owned() };
    assert_eq!(malformed.text(), "the body is not a well-formed `presence` message: x");
    let not_json = DecodeError::NotJson { detail: "y".to_owned() };
    assert_eq!(not_json.text(), "the body is not json: y");
    let wrong = DecodeError::WrongType { kind: "z".to_owned() };
    assert_eq!(wrong.text(), "the body is a `z` message, not a `presence` one");
}

/// A parsed body is judged as its text is.
#[test]
fn a_parsed_intent_is_judged_by_its_content() {
    let sent = PresenceBody::new("pod-1", PresenceState::Engaged, 7);
    let value: serde_json::Value = serde_json::from_str(&sent.encode()).expect("it is JSON");
    let read = PresenceBody::from_value(Ok(value)).expect("it is an intent");
    assert_eq!(read.encode(), sent.encode());
    assert!(matches!(
        PresenceBody::from_value(Err("no".to_string())),
        Err(DecodeError::NotJson { detail }) if detail == "no"
    ));
    assert!(matches!(
        PresenceBody::from_value(Ok(serde_json::Value::Bool(true))),
        Err(DecodeError::Malformed { detail }) if detail == "no `type` field"
    ));
}

/// A term of a thousand years is a term like any other.
#[test]
fn a_long_term_is_held() {
    let mut lease = Lease::new("reachy00");
    let term = Duration::from_secs(1_000 * 366 * 24 * 3_600);
    lease.apply(&engaged(1), origin(), term);
    assert_eq!(lease.desired(origin()), PresenceState::Engaged);
    assert_eq!(lease.desired(after(origin(), term)), PresenceState::Idle);
}

/// A term past the last instant of the system's clock is no term: the lease is idle at
/// once, and the body still counts as applied.
#[test]
fn a_term_past_the_end_of_the_clock_is_idle_at_once() {
    let mut lease = Lease::new("reachy00");
    lease.apply(&engaged(1), origin(), Duration::from_secs(u64::MAX));
    assert_eq!(lease.desired(origin()), PresenceState::Idle);
    let rest = Duration::from_secs(60);
    let mut last = Lease::new("reachy00");
    let late = Instant::from_nanos(SYSTEM_CLOCK_END - 60_000_000_000);
    last.apply(&engaged(1), late, rest);
    assert_eq!(last.desired(late), PresenceState::Engaged);
    last.apply(&engaged(2), Instant::from_nanos(late.nanos + 1), rest);
    assert_eq!(last.desired(Instant::from_nanos(late.nanos + 1)), PresenceState::Idle);
}
