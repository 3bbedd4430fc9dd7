//! Device logs, streamed until the device or the reader of the output goes away.

use vstd::prelude::*;

use crate::json::{self, push_count_field, push_string_field, Body, Field, Leaf};
use crate::jsonl::now_ms;
use crate::protocol::{DeviceFrame, LogFrame};
use crate::text::push_text;
use crate::transport::display::{self, format_log};

verus! {

/// A log line as a record: when the host received it, and what it holds.
pub open spec fn record_body(ts_ms: u64, log: LogFrame) -> Body {
    seq![
        ("ts_ms"@, Field::Leaf(Leaf::UInt(ts_ms))),
        ("level"@, Field::Leaf(Leaf::Str(log.level.name_text()))),
        ("target"@, Field::Leaf(Leaf::Str(log.target@))),
        ("message"@, Field::Leaf(Leaf::Str(log.message@))),
    ]
}

/// A log line as one line of JSON, its device text as the device sent it.
pub fn jsonl_record(ts_ms: u64, log: &LogFrame) -> (r: String)
    ensures
        r@ == json::body_text(record_body(ts_ms, *log)),
{
    let mut out = String::new();
    out.push('{');
    push_count_field(&mut out, "ts_ms", ts_ms);
    out.push(',');
    push_string_field(&mut out, "level", log.level.name());
    out.push(',');
    push_string_field(&mut out, "target", log.target.as_str());
    out.push(',');
    push_string_field(&mut out, "message", log.message.as_str());
    out.push('}');
    proof {
        let body = record_body(ts_ms, *log);
        let a = json::pair_text("ts_ms"@, json::field_text(body[0].1));
        let b = json::pair_text("level"@, json::field_text(body[1].1));
        let c = json::pair_text("target"@, json::field_text(body[2].1));
        let d = json::pair_text("message"@, json::field_text(body[3].1));
        assert(body.map_values(
            |f: (Seq<char>, Field)| json::pair_text(f.0, json::field_text(f.1)),
        ) =~= seq![a, b, c, d]);
        json::comma_joined_four(a, b, c, d);
        assert(out@ =~= json::body_text(body));
    }
    out
}

/// The wall clock as milliseconds since the UNIX epoch, 0 where it reads before
/// it. The clock decides the number.
pub fn now_unix_ms() -> (r: u64) {
    now_ms()
}

/// What became of a record on its way to the file.
#[derive(Debug, PartialEq, Eq)]
pub enum RecordOutcome {
    /// It is in the file.
    Stored,
    /// It could not be written.
    WriteFailed(String),
    /// It was written, and could not be flushed.
    FlushFailed(String),
}

/// Which failures of the record file have been warned of. A disk that stays full
/// is worth one warning.
#[derive(Debug, Clone, Copy, PartialEq, Eq, Structural)]
pub struct RecordWarnings {
    /// A failed write has been.
    pub write: bool,
    /// A failed flush has been.
    pub flush: bool,
}

impl RecordWarnings {
    /// Nothing has been warned of.
    pub fn new() -> (r: RecordWarnings)
        ensures
            r == (RecordWarnings { write: false, flush: false }),
    {
        RecordWarnings { write: false, flush: false }
    }

    /// The warning that an outcome is worth, if it is the first of its kind.
    pub fn note(&mut self, outcome: &RecordOutcome) -> (r: Option<String>)
        ensures
            match outcome {
                RecordOutcome::Stored => r is None && *final(self) == *old(self),
                RecordOutcome::WriteFailed(why) => {
                    &&& *final(self) == RecordWarnings { write: true, ..*old(self) }
                    &&& match r {
                        Some(line) => !old(self).write && line@
                            == "warn: JSONL write failed (further failures suppressed): "@ + why@,
                        None => old(self).write,
                    }
                },
                RecordOutcome::FlushFailed(why) => {
                    &&& *final(self) == RecordWarnings { flush: true, ..*old(self) }
                    &&& match r {
                        Some(line) => !old(self).flush && line@
                            == "warn: JSONL flush failed (further failures suppressed): "@ + why@,
                        None => old(self).flush,
                    }
                },
            },
    {
        match outcome {
            RecordOutcome::Stored => None,
            RecordOutcome::WriteFailed(why) => {
                if self.write {
                    return None;
                }
                self.write = true;
                let mut out = String::new();
                push_text(&mut out, "warn: JSONL write failed (further failures suppressed): ");
                push_text(&mut out, why.as_str());
                assert(out@ =~= "warn: JSONL write failed (further failures suppressed): "@ + why@);
                Some(out)
            },
            RecordOutcome::FlushFailed(why) => {
                if self.flush {
                    return None;
                }
                self.flush = true;
                let mut out = String::new();
                push_text(&mut out, "warn: JSONL flush failed (further failures suppressed): ");
                push_text(&mut out, why.as_str());
                assert(out@ =~= "warn: JSONL flush failed (further failures suppressed): "@ + why@);
                Some(out)
            },
        }
    }
}

/// What became of a line on its way to the standard output.
#[derive(Debug, PartialEq, Eq)]
pub enum LineOutcome {
    /// It was written.
    Written,
    /// Nobody reads the output any more.
    BrokenPipe,
    /// It could not be written.
    Failed(String),
}

/// Whether to go on after a line: not where nobody reads the output any more, which
/// is no failure.
pub fn emit_log_line(outcome: LineOutcome) -> (r: Result<bool, String>)
    ensures
        match outcome {
            LineOutcome::Written => r == Ok::<bool, String>(true),
            LineOutcome::BrokenPipe => r == Ok::<bool, String>(false),
            LineOutcome::Failed(why) => r == Err::<bool, String>(why),
        },
{
    match outcome {
        LineOutcome::Written => Ok(true),
        LineOutcome::BrokenPipe => Ok(false),
        LineOutcome::Failed(why) => Err(why),
    }
}

/// What to do with one frame.
#[derive(Debug, PartialEq, Eq)]
pub enum FrameDuty {
    /// Nothing.
    Nothing,
    /// Print this warning to the standard error.
    Warn(String),
    /// Store `record` first, where there is one; then write `line` to the standard
    /// output, where there is one, and hand what became of it to
    /// [`LogStream::on_line`].
    Log {
        /// The record for the file.
        record: Option<String>,
        /// The line for the standard output.
        line: Option<String>,
    },
}

/// A stream of device logs to the standard output and, where one is open, to a file
/// of records.
#[derive(Debug, Clone, Copy, PartialEq, Eq, Structural)]
pub struct LogStream {
    /// A file of records is open.
    pub jsonl: bool,
    /// The exit code, once it is settled that the stream ends.
    pub stop: Option<i32>,
}

/// `duty` is what a log line is due.
pub open spec fn log_is_due(stream: LogStream, log: LogFrame, ts_ms: u64, duty: FrameDuty) -> bool {
    match duty {
        FrameDuty::Log { record, line } => {
            &&& match record {
                Some(record) => stream.jsonl && record@ == json::body_text(
                    record_body(ts_ms, log),
                ),
                None => !stream.jsonl,
            }
            &&& match line {
                Some(line) => stream.stop is None && line@ == display::log_text(log),
                None => stream.stop is Some,
            }
        },
        _ => false,
    }
}

/// `duty` is what a frame is due.
pub open spec fn is_due(
    stream: LogStream,
    frame: DeviceFrame,
    ts_ms: u64,
    duty: FrameDuty,
) -> bool {
    match frame {
        DeviceFrame::Log(log) => log_is_due(stream, log, ts_ms, duty),
        DeviceFrame::Heartbeat => duty == FrameDuty::Nothing,
        DeviceFrame::Response(_) => duty matches FrameDuty::Warn(warning) && warning@
            == "WARN: unexpected response frame while streaming logs; ignoring"@,
    }
}

/// The exit code that a line settles, if any.
pub open spec fn settled_by(outcome: LineOutcome) -> Option<i32> {
    match outcome {
        LineOutcome::Written => None,
        LineOutcome::BrokenPipe => Some(0),
        LineOutcome::Failed(_) => Some(1),
    }
}

impl LogStream {
    /// A stream that has just begun.
    pub fn new(jsonl: bool) -> (r: LogStream)
        ensures
            r == (LogStream { jsonl, stop: None }),
    {
        LogStream { jsonl, stop: None }
    }

    /// What to do with a frame received at `ts_ms`. The file gets every log line;
    /// the standard output gets none once it is settled that the stream ends, even
    /// where one read brought several.
    pub fn on_frame(&self, frame: &DeviceFrame, ts_ms: u64) -> (r: FrameDuty)
        ensures
            is_due(*self, *frame, ts_ms, r),
    {
        match frame {
            DeviceFrame::Log(log) => {
                let record = if self.jsonl {
                    Some(jsonl_record(ts_ms, log))
                } else {
                    None
                };
                let line = if self.stop.is_none() {
                    Some(format_log(log))
                } else {
                    None
                };
                FrameDuty::Log { record, line }
            },
            DeviceFrame::Heartbeat => FrameDuty::Nothing,
            DeviceFrame::Response(_) => {
                let mut warning = String::new();
                push_text(
                    &mut warning,
                    "WARN: unexpected response frame while streaming logs; ignoring",
                );
                assert(warning@
                    =~= "WARN: unexpected response frame while streaming logs; ignoring"@);
                FrameDuty::Warn(warning)
            },
        }
    }

    /// Takes what became of a line, and says what to print to the standard error
    /// where it failed.
    pub fn on_line(&mut self, outcome: LineOutcome) -> (r: Option<String>)
        requires
            old(self).stop is None,
        ensures
            *final(self) == (LogStream { stop: settled_by(outcome), ..*old(self) }),
            match outcome {
                LineOutcome::Failed(why) => r matches Some(line) && line@
                    == "error: writing log to stdout failed: "@ + why@,
                _ => r is None,
            },
    {
        match emit_log_line(outcome) {
            Ok(true) => None,
            Ok(false) => {
                self.stop = Some(0);
                None
            },
            Err(why) => {
                self.stop = Some(1);
                let mut out = String::new();
                push_text(&mut out, "error: writing log to stdout failed: ");
                push_text(&mut out, why.as_str());
                assert(out@ =~= "error: writing log to stdout failed: "@ + why@);
                Some(out)
            },
        }
    }

    /// What a read means once its frames are handled: the exit code where the
    /// stream ends, and what to print to the standard error before. `fault` says why
    /// the read failed, where it did.
    pub fn on_read(&self, fault: Option<&str>) -> (r: (Option<i32>, Option<String>))
        ensures
            match fault {
                Some(why) => {
                    &&& r.0 == Some(1i32)
                    &&& r.1 matches Some(line) && line@ == "error: serial read failed: "@ + why@
                        + "; device disconnected?"@
                },
                None => r.0 == self.stop && r.1 is None,
            },
    {
        match fault {
            Some(why) => {
                let mut out = String::new();
                push_text(&mut out, "error: serial read failed: ");
                push_text(&mut out, why);
                push_text(&mut out, "; device disconnected?");
                assert(out@ =~= "error: serial read failed: "@ + why@ + "; device disconnected?"@);
                (Some(1), Some(out))
            },
            None => (self.stop, None),
        }
    }
}

/// The line that says a stream begins.
pub fn streaming_line(identity: &str) -> (r: String)
    ensures
        r@ == "streaming logs from "@ + identity@ + "; press Ctrl-C to stop"@,
{
    let mut out = String::new();
    push_text(&mut out, "streaming logs from ");
    push_text(&mut out, identity);
    push_text(&mut out, "; press Ctrl-C to stop");
    assert(out@ =~= "streaming logs from "@ + identity@ + "; press Ctrl-C to stop"@);
    out
}

/// The line for a file of records that does not open.
pub fn jsonl_open_failure_line(path: &str, detail: &str) -> (r: String)
    ensures
        r@ == "error: cannot open JSONL file "@ + path@ + ": "@ + detail@,
{
    let mut out = String::new();
    push_text(&mut out, "error: cannot open JSONL file ");
    push_text(&mut out, path);
    push_text(&mut out, ": ");
    push_text(&mut out, detail);
    assert(out@ =~= "error: cannot open JSONL file "@ + path@ + ": "@ + detail@);
    out
}

/// Once the output is gone, no later line is written to it, while the file goes on
/// getting every one.
pub proof fn the_file_outlives_the_output(
    stream: LogStream,
    outcome: LineOutcome,
    log: LogFrame,
    ts_ms: u64,
    duty: FrameDuty,
)
    requires
        stream.jsonl,
        outcome !is Written,
        is_due(
            LogStream { stop: settled_by(outcome), ..stream },
            DeviceFrame::Log(log),
            ts_ms,
            duty,
        ),
    ensures
        duty matches FrameDuty::Log { record, line } && record is Some && line is None,
{
}

/// A log line is stored with its stamp, level, target and message as the device sent
/// them, wherever a file is open, and shown for as long as the output is there.
pub proof fn a_log_line_is_stored_and_shown(
    stream: LogStream,
    log: LogFrame,
    ts_ms: u64,
    duty: FrameDuty,
)
    requires
        is_due(stream, DeviceFrame::Log(log), ts_ms, duty),
    ensures
        duty matches FrameDuty::Log { record, line } && {
            &&& record is Some <==> stream.jsonl
            &&& line is Some <==> stream.stop is None
            &&& line is Some ==> line->0@ == display::log_text(log)
            &&& record is Some ==> record->0@ == json::body_text(
                seq![
                    ("ts_ms"@, Field::Leaf(Leaf::UInt(ts_ms))),
                    ("level"@, Field::Leaf(Leaf::Str(log.level.name_text()))),
                    ("target"@, Field::Leaf(Leaf::Str(log.target@))),
                    ("message"@, Field::Leaf(Leaf::Str(log.message@))),
                ],
            )
        },
{
}

/// A sign of life is due nothing, and a response nobody asked for is warned of and
/// neither stored nor shown.
pub proof fn only_log_lines_are_streamed(
    stream: LogStream,
    frame: DeviceFrame,
    ts_ms: u64,
    duty: FrameDuty,
)
    requires
        is_due(stream, frame, ts_ms, duty),
    ensures
        duty is Log <==> frame is Log,
        duty is Nothing <==> frame is Heartbeat,
        duty is Warn <==> frame is Response,
        duty matches FrameDuty::Warn(warning) ==> warning@
            == "WARN: unexpected response frame while streaming logs; ignoring"@,
{
}

/// A line that was written lets the stream go on; an output nobody reads any more ends
/// it in success, and one that cannot be written ends it in failure.
pub proof fn a_line_settles_how_the_stream_ends(outcome: LineOutcome)
    ensures
        outcome is Written ==> settled_by(outcome) is None,
        outcome is BrokenPipe ==> settled_by(outcome) == Some(0i32),
        outcome is Failed ==> settled_by(outcome) == Some(1i32),
{
}

} // verus!
