//! Motion scripts: their timelines, their text, and the schedule that runs them.

use respeaker::clock::{Duration, Instant};
use respeaker::motion::schedule::{Acceptance, Desired, Schedule};
use respeaker::motion::script::{
    MotionScript, Play, Posture, ScriptError, Step, MAX_TIMEOUT_MS,
};
use respeaker::motion::wire::DecodeError;

const POD: &str = "reachy00";

fn now() -> Instant {
    Instant::from_nanos(5_000_000_000)
}

fn ms(count: u64) -> Duration {
    Duration::from_millis(count)
}

fn after(at: Instant, span: Duration) -> Instant {
    at.checked_add(span).expect("the clock reaches that far")
}

fn script(steps: Vec<Step>, timeout_ms: u64) -> MotionScript {
    MotionScript::new("reachy00", 1, steps, timeout_ms).expect("a lawful script")
}

fn numbered(seq: u64, steps: Vec<Step>, timeout_ms: u64) -> MotionScript {
    MotionScript::new(POD, seq, steps, timeout_ms).expect("a lawful script")
}

/// The nominal script: the head goes up now and stows when the speech is over.
fn nominal(seq: u64) -> MotionScript {
    numbered(
        seq,
        vec![Step::new(0, Posture::Up), Step::new(6740, Posture::Stow)],
        30_000,
    )
}

/// What one side writes, the other side reads — including the empty
/// timeline, which is lawful and whose only effect is its timeout.
#[test]
fn a_script_survives_the_wire() {
    for steps in [
        vec![],
        vec![Step::new(0, Posture::Up)],
        vec![Step::new(0, Posture::Up), Step::new(6740, Posture::Stow)],
    ] {
        let script = MotionScript::new("reachy00", 1_786_543_210_123, steps, 30_000)
            .expect("a lawful script");
        let text = script.encode();
        assert_eq!(MotionScript::decode(&text).expect("it decodes"), script);
    }
}

/// The encoded shape, spelled out field by field rather than inferred from
/// a round trip: a round trip agrees with itself even when both halves are
/// wrong, and the other end of this channel is written against the text,
/// not against this crate's opinion of it.
#[test]
fn script_the_encoding_is_the_documented_one() {
    let script = MotionScript::new(
        "reachy00",
        1_786_543_210_123,
        vec![Step::new(0, Posture::Up), Step::new(6740, Posture::Stow)],
        30_000,
    )
    .expect("a lawful script");
    let value: serde_json::Value = serde_json::from_str(&script.encode()).expect("it is json");

    assert_eq!(value["type"], "motion-script");
    assert_eq!(value["pod"], "reachy00");
    assert_eq!(value["seq"], 1_786_543_210_123u64);
    assert_eq!(value["timeout_ms"], 30_000);
    assert_eq!(value["steps"][0]["after_ms"], 0);
    assert_eq!(value["steps"][0]["posture"], "up");
    assert_eq!(value["steps"][1]["after_ms"], 6740);
    assert_eq!(value["steps"][1]["posture"], "stow");
}

/// The spelling a consumer logs and the spelling that crosses the wire are
/// the same one, checked against the encoding rather than against a second
/// copy of the table.
#[test]
fn a_posture_names_itself_the_way_the_wire_does() {
    for posture in [Posture::Up, Posture::Stow] {
        let text = script(vec![Step::new(0, posture)], 1000).encode();
        let value: serde_json::Value = serde_json::from_str(&text).expect("it is json");
        assert_eq!(value["steps"][0]["posture"], posture.as_str());
        assert_eq!(posture.as_str(), posture.as_str());
    }
}

/// A field this daemon has never heard of is not a reason to drop the
/// script. The schema is meant to grow — `base` is already named for the
/// shared timebase — and the scripter that grows first must not take the
/// head down with it.
#[test]
fn script_a_field_noscript_here_knows_is_ignored() {
    let text = r#"{"type":"motion-script","pod":"reachy00","seq":3,
                   "steps":[{"after_ms":0,"posture":"up","ease":"quintic"}],
                   "timeout_ms":30000,"base":1786543210123}"#;
    let decoded = MotionScript::decode(text).expect("the fields it needs are all there");
    assert_eq!(decoded.steps(), [Step::new(0, Posture::Up)]);
    assert_eq!(decoded.seq(), 3);
}

/// Another tenant of the same channel is reported as another tenant. The
/// daemon skips it; nothing about it is a failure.
#[test]
fn script_a_message_of_another_kind_says_so() {
    let text = r#"{"type":"gaze","pod":"reachy00","az":0.2}"#;
    match MotionScript::decode(text).expect_err("not a script") {
        DecodeError::WrongType { kind } => assert_eq!(kind, "gaze"),
        other => panic!("expected a wrong-type report, got {other:?}"),
    }
}

/// A field nobody here knows is ignored, in a script and in a step.
#[test]
fn script_a_field_nobody_here_knows_is_ignored() {
    let text = r#"{"type":"motion-script","pod":"reachy00","seq":3,
                   "steps":[{"after_ms":0,"posture":"up","ease":"quintic"}],
                   "timeout_ms":30000,"base":1786543210123}"#;
    let decoded = MotionScript::decode(text).expect("the fields it needs are all there");
    assert_eq!(decoded.steps(), [Step::new(0, Posture::Up)]);
    assert_eq!(decoded.seq(), 3);
}

/// The malformed shapes, each reported as what it is. A posture nobody has
/// defined is refused rather than guessed at: the postures are the
/// message's whole meaning, and a guess here moves a head.
#[test]
fn a_body_that_is_not_a_script_is_reported_rather_than_guessed_at() {
    let not_json = MotionScript::decode("{not json").expect_err("it is not json");
    assert!(
        matches!(not_json, DecodeError::NotJson { .. }),
        "{not_json:?}"
    );

    for text in [
        // No discriminator at all.
        r#"{"pod":"reachy00","seq":1,"steps":[],"timeout_ms":30000}"#,
        // Each required field, missing in turn.
        r#"{"type":"motion-script","seq":1,"steps":[],"timeout_ms":30000}"#,
        r#"{"type":"motion-script","pod":"reachy00","steps":[],"timeout_ms":30000}"#,
        r#"{"type":"motion-script","pod":"reachy00","seq":1,"timeout_ms":30000}"#,
        r#"{"type":"motion-script","pod":"reachy00","seq":1,"steps":[]}"#,
        // A posture outside the vocabulary.
        r#"{"type":"motion-script","pod":"reachy00","seq":1,
            "steps":[{"after_ms":0,"posture":"lurking"}],"timeout_ms":30000}"#,
        // A step missing its offset.
        r#"{"type":"motion-script","pod":"reachy00","seq":1,
            "steps":[{"posture":"up"}],"timeout_ms":30000}"#,
        // Numbers that are not counts.
        r#"{"type":"motion-script","pod":"reachy00","seq":-1,"steps":[],"timeout_ms":30000}"#,
        r#"{"type":"motion-script","pod":"reachy00","seq":1,"steps":[],"timeout_ms":-1}"#,
    ] {
        let refused = MotionScript::decode(text).expect_err("a field is missing or unreadable");
        assert!(
            matches!(refused, DecodeError::Malformed { .. }),
            "{text}: {refused:?}"
        );
    }
}

/// A timeline that decodes and cannot be executed is refused whole, and by
/// both doors: the daemon that reads it and the scripter that builds it
/// come to the same conclusion, so a bug cannot escape the host.
#[test]
fn an_unexecutable_timeline_is_refused_by_both_doors() {
    let zero_timeout = r#"{"type":"motion-script","pod":"reachy00","seq":1,
                           "steps":[],"timeout_ms":0}"#;
    assert_eq!(
        MotionScript::decode(zero_timeout).expect_err("no bound"),
        DecodeError::Invalid(ScriptError::TimeoutNotPositive { timeout_ms: 0 })
    );
    assert_eq!(
        MotionScript::new("reachy00", 1, vec![], 0).expect_err("no bound"),
        ScriptError::TimeoutNotPositive { timeout_ms: 0 }
    );

    let backwards = r#"{"type":"motion-script","pod":"reachy00","seq":1,
                        "steps":[{"after_ms":500,"posture":"up"},
                                 {"after_ms":200,"posture":"stow"}],
                        "timeout_ms":30000}"#;
    assert_eq!(
        MotionScript::decode(backwards).expect_err("out of order"),
        DecodeError::Invalid(ScriptError::StepsNotAscending {
            index: 1,
            after_ms: 200,
            previous_ms: 500,
        })
    );

    // Two steps at the same instant: the executor takes the last due one,
    // and "last" means nothing when two share an offset.
    assert_eq!(
        MotionScript::new(
            "reachy00",
            1,
            vec![Step::new(0, Posture::Up), Step::new(0, Posture::Stow)],
            30_000,
        )
        .expect_err("simultaneous"),
        ScriptError::StepsNotAscending {
            index: 1,
            after_ms: 0,
            previous_ms: 0,
        }
    );
}

/// The refusals read as sentences naming the message type and the offending
/// numbers, because they go into a log line an operator reads without this
/// file open beside it.
#[test]
fn script_a_refusal_names_what_was_expected() {
    let wrong_type = MotionScript::decode(r#"{"type":"gaze"}"#).expect_err("not a script");
    let printed = wrong_type.text();
    assert!(printed.contains("motion-script"), "{printed}");
    assert!(printed.contains("gaze"), "{printed}");

    let printed = DecodeError::Invalid(ScriptError::StepsNotAscending {
        index: 2,
        after_ms: 200,
        previous_ms: 500,
    })
    .text();
    assert!(printed.contains("200"), "{printed}");
    assert!(printed.contains("500"), "{printed}");
}

/// The timeline resolved at an instant: nothing before the first step, the
/// last due step once several have passed, and the last step forever after.
#[test]
fn the_posture_is_the_last_step_that_has_come_due() {
    let script = script(
        vec![Step::new(500, Posture::Up), Step::new(6740, Posture::Stow)],
        30_000,
    );

    assert_eq!(script.posture_at(0), None, "nothing is due yet");
    assert_eq!(script.posture_at(499), None);
    assert_eq!(script.posture_at(500), Some(Posture::Up));
    assert_eq!(script.posture_at(6739), Some(Posture::Up));
    assert_eq!(script.posture_at(6740), Some(Posture::Stow));
    assert_eq!(script.posture_at(600_000), Some(Posture::Stow));

    // A script that landed late collapses to the one posture that matters
    // rather than replaying its timeline.
    assert_eq!(script.posture_at(10_000), Some(Posture::Stow));
}

/// An empty timeline never asks for a posture. It is a lawful script whose
/// whole content is its timeout.
#[test]
fn an_empty_timeline_commands_nothing() {
    let script = script(vec![], 30_000);
    assert_eq!(script.posture_at(0), None);
    assert_eq!(script.posture_at(u64::MAX), None);
    assert_eq!(script.next_step_ms(0), None);
    assert_eq!(script.expiry_ms(), 30_000);
}

/// What the executor needs to know about the future: when the next step
/// falls due, and when the whole script lapses.
#[test]
fn the_next_step_and_the_expiry_are_both_offsets() {
    let script = script(
        vec![Step::new(500, Posture::Up), Step::new(6740, Posture::Stow)],
        30_000,
    );

    assert_eq!(script.next_step_ms(0), Some(500));
    assert_eq!(script.next_step_ms(500), Some(6740));
    assert_eq!(script.next_step_ms(6740), None);
    assert_eq!(script.expiry_ms(), 30_000);
}

/// The expiry is the timeout and nothing else, on every shape of timeline —
/// which is what makes the number in the message the number the head is
/// exposed for.
#[test]
fn the_expiry_is_the_timeout_the_script_named() {
    for steps in [
        vec![],
        vec![Step::new(0, Posture::Up)],
        vec![Step::new(0, Posture::Up), Step::new(29_999, Posture::Stow)],
    ] {
        assert_eq!(script(steps, 30_000).expiry_ms(), 30_000);
    }
}

/// A timeline that runs to or past its own timeout is refused by both
/// doors, and the last step has to be *strictly* inside: level with the
/// timeout the lapse resolves first, and the step would be swallowed.
#[test]
fn a_timeline_reaching_its_own_timeout_is_refused() {
    assert_eq!(
        MotionScript::new(
            "reachy00",
            1,
            vec![Step::new(0, Posture::Up), Step::new(9_000, Posture::Stow)],
            5_000,
        )
        .expect_err("the timeline outruns the bound it states"),
        ScriptError::TimelinePastTimeout {
            last_ms: 9_000,
            timeout_ms: 5_000,
        }
    );

    let level = r#"{"type":"motion-script","pod":"reachy00","seq":1,
                    "steps":[{"after_ms":5000,"posture":"stow"}],
                    "timeout_ms":5000}"#;
    assert_eq!(
        MotionScript::decode(level).expect_err("level with the lapse"),
        DecodeError::Invalid(ScriptError::TimelinePastTimeout {
            last_ms: 5_000,
            timeout_ms: 5_000,
        })
    );

    // One millisecond inside is lawful, and the step resolves.
    let inside = script(vec![Step::new(4_999, Posture::Stow)], 5_000);
    assert_eq!(inside.posture_at(4_999), Some(Posture::Stow));

    // A timeline out of order is reported as out of order rather than as a
    // timeline past its timeout: "the last step" means nothing until the
    // offsets ascend.
    assert_eq!(
        MotionScript::new(
            "reachy00",
            1,
            vec![Step::new(9_000, Posture::Up), Step::new(10, Posture::Stow)],
            5_000,
        )
        .expect_err("out of order"),
        ScriptError::StepsNotAscending {
            index: 1,
            after_ms: 10,
            previous_ms: 9_000,
        }
    );
}

/// The second bound, which exists for the slip that keeps the timeline and
/// the timeout consistent with each other: no message may name an exposure
/// past ten minutes, whatever its steps say.
#[test]
fn a_timeout_past_the_ceiling_is_refused() {
    assert_eq!(
        MotionScript::new("reachy00", 1, vec![], MAX_TIMEOUT_MS + 1)
            .expect_err("past the ceiling"),
        ScriptError::TimeoutPastCeiling {
            timeout_ms: MAX_TIMEOUT_MS + 1,
        }
    );

    // The seconds-for-milliseconds accident: an hour-long exposure under a
    // timeline that agrees with it perfectly.
    let slipped = r#"{"type":"motion-script","pod":"reachy00","seq":1,
                      "steps":[{"after_ms":0,"posture":"up"},
                               {"after_ms":3600000,"posture":"stow"}],
                      "timeout_ms":3605000}"#;
    assert_eq!(
        MotionScript::decode(slipped).expect_err("an hour is nobody's turn"),
        DecodeError::Invalid(ScriptError::TimeoutPastCeiling {
            timeout_ms: 3_605_000,
        })
    );

    // The ceiling itself is lawful; it is a bound, not a limit to stay
    // under.
    let at_ceiling = script(vec![Step::new(0, Posture::Up)], MAX_TIMEOUT_MS);
    assert_eq!(at_ceiling.expiry_ms(), MAX_TIMEOUT_MS);
}

/// The refusals read as sentences carrying both numbers, because the
/// operator reading the daemon's refusal line is looking for which of the
/// two the publisher got wrong.
#[test]
fn the_ceiling_refusals_name_their_numbers() {
    let printed = ScriptError::TimelinePastTimeout {
        last_ms: 40_500,
        timeout_ms: 30_000,
    }
    .text();
    assert!(printed.contains("40500"), "{printed}");
    assert!(printed.contains("30000"), "{printed}");

    let printed = ScriptError::TimeoutPastCeiling {
        timeout_ms: 3_605_000,
    }
    .text();
    assert!(printed.contains("3605000"), "{printed}");
    assert!(printed.contains("600000"), "{printed}");
}

/// A daemon that has heard nothing changes nothing. Resting is the default
/// state; no message is needed to keep it there.
#[test]
fn an_empty_schedule_asks_for_nothing() {
    let schedule = Schedule::new(POD);
    assert_eq!(schedule.desired(now()), Desired::Unchanged);
    assert_eq!(schedule.next_boundary(now()), None);
    assert_eq!(schedule.accepted_seq(), None);
    assert_eq!(schedule.expires_at(), None);
    assert!(schedule.running().is_none());
    assert_eq!(schedule.pod(), POD);
}

/// The whole nominal case, walked in time: up at receipt, up through the
/// speech, stowed at the scheduled instant, and lapsed at the timeout.
#[test]
fn a_script_is_executed_against_the_clock_that_received_it() {
    let start = now();
    let mut schedule = Schedule::new(POD);
    assert_eq!(schedule.accept(&nominal(1), start), Acceptance::Accepted);

    assert_eq!(schedule.desired(start), Desired::Posture(Posture::Up));
    assert_eq!(
        schedule.desired(after(start, ms(6739))),
        Desired::Posture(Posture::Up)
    );
    assert_eq!(
        schedule.desired(after(start, ms(6740))),
        Desired::Posture(Posture::Stow)
    );
    assert_eq!(
        schedule.desired(after(start, ms(29_999))),
        Desired::Posture(Posture::Stow)
    );
    assert_eq!(schedule.desired(after(start, ms(30_000))), Desired::Expired);
    assert_eq!(schedule.desired(after(start, ms(600_000))), Desired::Expired);
    assert_eq!(schedule.expires_at(), Some(after(start, ms(30_000))));
}

/// The overlay caller's view of the same timeline: nothing before a script
/// lands, the script and its own elapsed clock while it runs, and nothing
/// once it lapses — the same instant `desired` starts answering `Expired`.
#[test]
fn the_running_script_and_its_clock_come_out_until_the_lapse() {
    let start = now();
    let mut schedule = Schedule::new(POD);
    assert!(schedule.running_at(start).is_none());

    schedule.accept(&nominal(1), start);

    let (script, elapsed) = schedule.running_at(start).expect("a running script");
    assert_eq!(script.seq(), 1);
    assert_eq!(elapsed, 0);

    let (_, elapsed) = schedule
        .running_at(after(start, ms(6_740)))
        .expect("still running");
    assert_eq!(elapsed, 6_740);

    let (_, elapsed) = schedule
        .running_at(after(start, ms(29_999)))
        .expect("running to the last millisecond");
    assert_eq!(elapsed, 29_999);

    assert!(schedule.running_at(after(start, ms(30_000))).is_none());
    assert!(schedule.running_at(after(start, ms(600_000))).is_none());
}

/// A step still ahead of the clock does not disturb the machine. A hold
/// script's `up@0` is immediate; a closing script's stow is a future the
/// daemon waits out.
#[test]
fn a_script_whose_first_step_is_ahead_changes_nothing_yet() {
    let start = now();
    let mut schedule = Schedule::new(POD);
    schedule.accept(
        &numbered(1, vec![Step::new(8_000, Posture::Stow)], 30_000),
        start,
    );

    assert_eq!(schedule.desired(start), Desired::Unchanged);
    assert_eq!(schedule.desired(after(start, ms(7_999))), Desired::Unchanged);
    assert_eq!(
        schedule.desired(after(start, ms(8_000))),
        Desired::Posture(Posture::Stow)
    );
}

/// An empty timeline is lawful and inert: it commands no posture, and its
/// only effect is the expiry that ends it.
#[test]
fn an_empty_script_only_expires() {
    let start = now();
    let mut schedule = Schedule::new(POD);
    assert_eq!(
        schedule.accept(&numbered(1, vec![], 5_000), start),
        Acceptance::Accepted
    );

    assert_eq!(schedule.desired(start), Desired::Unchanged);
    assert_eq!(schedule.desired(after(start, ms(4_999))), Desired::Unchanged);
    assert_eq!(schedule.desired(after(start, ms(5_000))), Desired::Expired);
    assert_eq!(schedule.next_boundary(start), Some(after(start, ms(5_000))));
}

/// The replacement rule, which is what makes a re-emit cheap: the new
/// script's timeline is the whole answer, measured from when *it* landed,
/// and nothing of the old one survives.
#[test]
fn a_later_script_wholly_replaces_the_one_running() {
    let start = now();
    let mut schedule = Schedule::new(POD);
    schedule.accept(&nominal(1), start);

    // A continuation: the same conversation, stowing later.
    let later = after(start, ms(3_000));
    let extended = numbered(
        2,
        vec![Step::new(0, Posture::Up), Step::new(9_000, Posture::Stow)],
        30_000,
    );
    assert_eq!(schedule.accept(&extended, later), Acceptance::Accepted);

    // The old script's 6.74 s stow is gone, not merely postponed.
    assert_eq!(
        schedule.desired(after(start, ms(6_740))),
        Desired::Posture(Posture::Up)
    );
    assert_eq!(
        schedule.desired(after(later, ms(9_000))),
        Desired::Posture(Posture::Stow)
    );
    assert_eq!(schedule.expires_at(), Some(after(later, ms(30_000))));
    assert_eq!(schedule.running().map(MotionScript::seq), Some(2));
}

/// A redelivery, and a message overtaken in flight, are both dropped — and
/// say so, so the daemon reports the drop rather than inferring it from a
/// schedule that did not change.
#[test]
fn a_script_at_or_below_the_accepted_number_is_dropped() {
    let start = now();
    let mut schedule = Schedule::new(POD);
    schedule.accept(&nominal(7), start);

    assert_eq!(
        schedule.accept(&nominal(7), after(start, ms(10))),
        Acceptance::Stale {
            seq: 7,
            accepted: 7
        }
    );
    assert_eq!(
        schedule.accept(&nominal(3), after(start, ms(20))),
        Acceptance::Stale {
            seq: 3,
            accepted: 7
        }
    );
    // Dropped means dropped: the running script's own clock did not move.
    assert_eq!(schedule.expires_at(), Some(after(start, ms(30_000))));
    assert_eq!(schedule.accepted_seq(), Some(7));
}

/// The host restart case the wall-clock seq rule exists for: a fresh
/// scripter's first number is above the mark this daemon is holding, so its
/// first script lands instead of being deaf-dropped forever.
#[test]
fn a_restarted_scripter_is_heard_because_its_numbers_climb() {
    let start = now();
    let mut schedule = Schedule::new(POD);
    schedule.accept(&nominal(1_786_543_210_123), start);

    let after_restart = nominal(1_786_543_299_000);
    assert_eq!(
        schedule.accept(&after_restart, after(start, ms(50))),
        Acceptance::Accepted
    );
    assert_eq!(schedule.accepted_seq(), Some(1_786_543_299_000));
}

/// A daemon restart runs the other way: the mark is forgotten, and the next
/// script — whatever it is numbered — is accepted.
#[test]
fn a_restarted_daemon_has_no_mark_to_be_deaf_behind() {
    let start = now();
    let mut schedule = Schedule::new(POD);
    assert_eq!(schedule.accept(&nominal(2), start), Acceptance::Accepted);

    let restarted = Schedule::new(POD).accepted_seq();
    assert_eq!(restarted, None);
}

/// Another machine's script moves nothing here, and is not recorded as
/// something this schedule has seen.
#[test]
fn another_pods_script_is_reported_and_ignored() {
    let start = now();
    let mut schedule = Schedule::new(POD);
    schedule.accept(&nominal(1), start);

    let elsewhere =
        MotionScript::new("reachy01", 99, vec![Step::new(0, Posture::Stow)], 30_000)
            .expect("a lawful script");

    assert_eq!(
        schedule.accept(&elsewhere, after(start, ms(10))),
        Acceptance::Foreign
    );
    assert_eq!(
        schedule.desired(after(start, ms(10))),
        Desired::Posture(Posture::Up)
    );
    assert_eq!(schedule.accepted_seq(), Some(1), "not this stream");
}

/// A script that lands after its own steps were due collapses to the one
/// posture that matters. A daemon that was busy for a second does not
/// replay a timeline at the machine.
#[test]
fn past_due_steps_collapse_to_the_last_one() {
    let start = now();
    let mut schedule = Schedule::new(POD);
    schedule.accept(&nominal(1), start);

    assert_eq!(
        schedule.desired(after(start, ms(20_000))),
        Desired::Posture(Posture::Stow),
        "the up step is history; only the stow still stands"
    );
}

/// What the motion thread sizes a dwell against: the next step while there
/// is one, then the expiry, then nothing at all.
#[test]
fn the_next_boundary_walks_the_timeline_then_the_expiry() {
    let start = now();
    let mut schedule = Schedule::new(POD);
    schedule.accept(&nominal(1), start);

    assert_eq!(schedule.next_boundary(start), Some(after(start, ms(6_740))));
    assert_eq!(
        schedule.next_boundary(after(start, ms(6_740))),
        Some(after(start, ms(30_000)))
    );
    assert_eq!(schedule.next_boundary(after(start, ms(30_000))), None);
}

/// A step one millisecond inside the timeout is executed, and the lapse
/// arrives the millisecond after it. That margin is why validation demands
/// a *strictly* smaller last step: level with the timeout, the expiry check
/// running first would answer `Expired` at the instant the step came due
/// and the script's last instruction would never be seen.
#[test]
fn the_last_step_inside_the_timeout_is_reached_before_the_lapse() {
    let start = now();
    let mut schedule = Schedule::new(POD);
    schedule.accept(
        &numbered(
            1,
            vec![Step::new(0, Posture::Up), Step::new(8_999, Posture::Stow)],
            9_000,
        ),
        start,
    );

    assert_eq!(
        schedule.desired(after(start, ms(8_998))),
        Desired::Posture(Posture::Up)
    );
    assert_eq!(
        schedule.desired(after(start, ms(8_999))),
        Desired::Posture(Posture::Stow)
    );
    assert_eq!(schedule.desired(after(start, ms(9_000))), Desired::Expired);
    assert_eq!(schedule.next_boundary(start), Some(after(start, ms(8_999))));
    assert_eq!(
        schedule.next_boundary(after(start, ms(8_999))),
        Some(after(start, ms(9_000)))
    );
}

/// A last step that is not a stow is executed too. Today every timeline
/// ends in one, so a swallowed final step would be invisible; the schema's
/// growth path is new postures, and this is the case that would break.
#[test]
fn a_final_step_that_is_not_a_stow_is_reached_before_the_lapse() {
    let start = now();
    let mut schedule = Schedule::new(POD);
    schedule.accept(
        &numbered(1, vec![Step::new(9_000, Posture::Up)], 9_001),
        start,
    );

    assert_eq!(
        schedule.desired(after(start, ms(9_000))),
        Desired::Posture(Posture::Up)
    );
    assert_eq!(schedule.desired(after(start, ms(9_001))), Desired::Expired);
}

/// A `keep` step asks for something, and what it asks for is distinct from
/// the absence of an instruction: a machine mid-transition answers a freeze
/// to one and carries on for the other.
#[test]
fn a_keep_step_asks_for_the_base_to_stay_where_it_is() {
    let start = now();
    let mut schedule = Schedule::new(POD);
    schedule.accept(
        &numbered(
            1,
            vec![
                Step::new(0, Posture::Up),
                Step::keep(2_000),
                Step::new(4_000, Posture::Stow),
            ],
            30_000,
        ),
        start,
    );

    assert_eq!(schedule.desired(start), Desired::Posture(Posture::Up));
    assert_eq!(
        schedule.desired(after(start, ms(1_999))),
        Desired::Posture(Posture::Up)
    );
    assert_eq!(schedule.desired(after(start, ms(2_000))), Desired::Keep);
    assert_eq!(schedule.desired(after(start, ms(3_999))), Desired::Keep);
    assert_eq!(
        schedule.desired(after(start, ms(4_000))),
        Desired::Posture(Posture::Stow)
    );
    // A script holding via `keep` still lapses like every other one.
    assert_eq!(schedule.desired(after(start, ms(30_000))), Desired::Expired);
}

/// The steps that start overlays are not base steps: the base is what the
/// last due *base* step said, however many motions have started since, and
/// a play step still moves the boundary the motion thread waits on.
#[test]
fn play_steps_move_the_clock_without_moving_the_base() {
    let start = now();
    let mut schedule = Schedule::new(POD);
    schedule.accept(
        &numbered(
            1,
            vec![
                Step::new(0, Posture::Up),
                Step::play(400, Play::new("pod/wiggle")),
                Step::new(9_000, Posture::Stow),
            ],
            30_000,
        ),
        start,
    );

    assert_eq!(
        schedule.desired(after(start, ms(400))),
        Desired::Posture(Posture::Up)
    );
    assert_eq!(schedule.next_boundary(start), Some(after(start, ms(400))));
    assert_eq!(
        schedule.next_boundary(after(start, ms(400))),
        Some(after(start, ms(9_000)))
    );
}

#[test]
fn the_text_of_a_script_is_exact() {
    assert_eq!(
        nominal(9).encode(),
        r#"{"type":"motion-script","pod":"reachy00","seq":9,"steps":[{"after_ms":0,"posture":"up"},{"after_ms":6740,"posture":"stow"}],"timeout_ms":30000}"#
    );
    assert!(nominal(9).has_text());
    assert!(!script(vec![Step::keep(0)], 10).has_text());
    assert!(!script(vec![Step::play(0, Play::new("pod/wiggle"))], 10).has_text());
}

#[test]
fn each_refusal_of_a_script_reads_as_a_sentence() {
    for (error, part) in [
        (ScriptError::TimeoutNotPositive { timeout_ms: 0 }, "0"),
        (ScriptError::StepsNotAscending { index: 1, after_ms: 4, previous_ms: 9 }, "9"),
        (ScriptError::TimelinePastTimeout { last_ms: 31, timeout_ms: 30 }, "31"),
        (ScriptError::TimeoutPastCeiling { timeout_ms: 600_001 }, "600001"),
    ] {
        assert!(error.text().contains(part), "{}", error.text());
    }
}

/// A parsed body is judged as its text is.
#[test]
fn a_parsed_body_is_judged_by_its_content() {
    let sent = nominal(7);
    let value: serde_json::Value = serde_json::from_str(&sent.encode()).expect("it is JSON");
    let read = MotionScript::from_value(Ok(value)).expect("it is a script");
    assert_eq!(read, sent);
    assert_eq!(
        MotionScript::from_value(Err("no".to_string())),
        Err(DecodeError::NotJson { detail: "no".to_string() })
    );
    assert_eq!(
        MotionScript::from_value(Ok(serde_json::Value::Null)),
        Err(DecodeError::Malformed { detail: "no `type` field".to_string() })
    );
}

/// A step may come as a list of its two fields, and a posture as an object's one key.
#[test]
fn a_step_may_be_a_list() {
    let text = r#"{"type":"motion-script","pod":"p","seq":1,
                   "steps":[[0,"up"],[5,{"stow":null}]],"timeout_ms":10}"#;
    let decoded = MotionScript::decode(text).expect("both forms are read");
    assert_eq!(decoded.steps(), [Step::new(0, Posture::Up), Step::new(5, Posture::Stow)]);
    for (broken, detail) in [
        ("[[]]", "invalid length 0, expected struct Step with 2 elements"),
        ("[[0]]", "invalid length 1, expected struct Step with 2 elements"),
        ("[[0,\"up\",1]]", "invalid length 3, expected fewer elements in array"),
        ("[[0,{\"up\":1}]]", "invalid type: integer `1`, expected unit"),
        ("[[0,{}]]", "invalid value: map, expected map with a single key"),
        ("[[-1]]", "invalid value: integer `-1`, expected u64"),
        ("{}", "invalid type: map, expected a sequence"),
        ("[\"x\"]", "invalid type: string \"x\", expected struct Step"),
        ("[{}]", "missing field `after_ms`"),
        ("[{\"after_ms\":1}]", "missing field `posture`"),
        ("[{\"posture\":\"sideways\"}]", "unknown variant `sideways`, expected `up` or `stow`"),
        ("[[0,\"up\"],[1,\"x\"],3]", "unknown variant `x`, expected `up` or `stow`"),
    ] {
        let text = format!(
            r#"{{"type":"motion-script","pod":"p","seq":1,"steps":{broken},"timeout_ms":10}}"#
        );
        assert_eq!(
            MotionScript::decode(&text),
            Err(DecodeError::Malformed { detail: detail.to_string() }),
            "{broken}"
        );
    }
}

/// Where the clock cannot represent a boundary, it lies at the clock's end.
#[test]
fn a_boundary_past_the_clock_lies_at_its_end() {
    let mut schedule = Schedule::new(POD);
    let near_the_end = Instant::from_nanos(u128::MAX - 1);
    schedule.accept(&numbered(1, vec![Step::new(500, Posture::Up)], 1_000), near_the_end);
    assert_eq!(schedule.expires_at(), Some(Instant::last()));
    assert_eq!(schedule.next_boundary(near_the_end), Some(Instant::last()));
    assert_eq!(schedule.desired(near_the_end), Desired::Unchanged);
}
