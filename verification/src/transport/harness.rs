//! Requests, and the frames among which their responses are found.
//!
//! A request goes out under an id of its own and its response comes back among
//! log lines and signs of life. [`ResponseWait`] and [`LogDrain`] decide what a
//! batch off the link means; reading the batch is the caller's. [`Exchange`] is how a
//! whole wait comes out.

use vstd::prelude::*;

use crate::clock::Instant;
use crate::protocol::{DeviceFrame, Response};
use crate::text::{self, contains_text, push_decimal, push_text};
use crate::transport::display::{self, format_log};
use crate::transport::frames::Delivery;

verus! {

/// Seconds a response may take.
pub const RESPONSE_TIMEOUT_SECS: u64 = 10;

/// Why a request got no response.
#[derive(Debug, PartialEq, Eq)]
pub enum HarnessError {
    /// No response arrived in time.
    Timeout,
    /// The request could not be written.
    Write(String),
    /// The link could not be read, as when a device is unplugged.
    Read(String),
    /// The request could not be encoded.
    Encode(String),
}

/// The error as operators read it.
pub open spec fn error_text(e: HarnessError) -> Seq<char> {
    match e {
        HarnessError::Timeout => "response timeout"@,
        HarnessError::Write(why) => "write error: "@ + why@,
        HarnessError::Read(why) => "serial read error: "@ + why@,
        HarnessError::Encode(why) => "request encode failed: "@ + why@,
    }
}

impl HarnessError {
    /// The error as operators read it.
    pub fn text(&self) -> (r: String)
        ensures
            r@ == error_text(*self),
    {
        let mut out = String::new();
        match self {
            HarnessError::Timeout => push_text(&mut out, "response timeout"),
            HarnessError::Write(why) => {
                push_text(&mut out, "write error: ");
                push_text(&mut out, why.as_str());
            },
            HarnessError::Read(why) => {
                push_text(&mut out, "serial read error: ");
                push_text(&mut out, why.as_str());
            },
            HarnessError::Encode(why) => {
                push_text(&mut out, "request encode failed: ");
                push_text(&mut out, why.as_str());
            },
        }
        assert(out@ =~= error_text(*self));
        out
    }
}

/// Hands out request ids.
#[derive(Debug)]
pub struct Harness {
    /// Id of the next request.
    pub next_id: u32,
}

/// A request begun: the harness after it, and the wait for its response.
pub open spec fn begun(harness: Harness, deadline: Instant) -> (Harness, ResponseWait) {
    (
        Harness { next_id: (harness.next_id + 1) as u32 },
        ResponseWait { id: harness.next_id, deadline },
    )
}

impl Harness {
    /// A harness whose first request has the id one.
    pub fn new() -> (r: Harness)
        ensures
            r == (Harness { next_id: 1 }),
    {
        Harness { next_id: 1 }
    }

    /// Whether an id is left.
    pub fn has_id(&self) -> (r: bool)
        ensures
            r == (self.next_id < u32::MAX),
    {
        self.next_id < u32::MAX
    }

    /// Begins a request: spends an id and starts the wait for its response.
    pub fn begin(&mut self, deadline: Instant) -> (r: ResponseWait)
        requires
            old(self).next_id < u32::MAX,
        ensures
            (*final(self), r) == begun(*old(self), deadline),
    {
        let id: u32 = self.next_id;
        self.next_id = id + 1;
        ResponseWait { id, deadline }
    }
}

/// A request whose response is awaited.
#[derive(Debug, Clone, Copy, PartialEq, Eq, Structural)]
pub struct ResponseWait {
    /// Id of the request.
    pub id: u32,
    /// When the wait is given up.
    pub deadline: Instant,
}

/// What arrived answers the request.
pub open spec fn is_answer(arrived: Delivery, id: u32) -> bool {
    arrived matches Delivery::Frame(DeviceFrame::Response(resp)) && resp.id == id
}

/// The response to the request in `batch`: the last of those with its id.
pub open spec fn answer(batch: Seq<Delivery>, id: u32) -> Option<Response>
    decreases batch.len(),
{
    if batch.len() == 0 {
        None
    } else {
        match batch.last() {
            Delivery::Frame(DeviceFrame::Response(resp)) if resp.id == id => Some(resp),
            _ => answer(batch.drop_last(), id),
        }
    }
}

/// The log lines in `batch`, in order.
pub open spec fn log_lines(batch: Seq<Delivery>) -> Seq<Seq<char>>
    decreases batch.len(),
{
    if batch.len() == 0 {
        seq![]
    } else {
        let before = log_lines(batch.drop_last());
        match batch.last() {
            Delivery::Frame(DeviceFrame::Log(log)) => before.push(display::log_text(log)),
            _ => before,
        }
    }
}

/// What an operator is told of something that arrives while the response to `id` is
/// awaited.
pub open spec fn notice(arrived: Delivery, id: u32) -> Seq<Seq<char>> {
    match arrived {
        Delivery::Frame(DeviceFrame::Response(resp)) => if resp.id == id {
            seq![]
        } else {
            seq![
                "WARN [demux]: received response id="@ + text::decimal(resp.id as nat)
                    + " while waiting for id="@ + text::decimal(id as nat) + "; skipping"@,
            ]
        },
        Delivery::Frame(DeviceFrame::Log(log)) => seq![display::log_text(log)],
        Delivery::Frame(DeviceFrame::Heartbeat) => seq![],
        Delivery::Discarded { why, dump } => seq![why@, dump@],
    }
}

/// What an operator is told of `batch` while the response to `id` is awaited.
pub open spec fn notices(batch: Seq<Delivery>, id: u32) -> Seq<Seq<char>>
    decreases batch.len(),
{
    if batch.len() == 0 {
        seq![]
    } else {
        notices(batch.drop_last(), id) + notice(batch.last(), id)
    }
}

/// What a wait does next.
#[derive(Debug, PartialEq, Eq)]
pub enum WaitAction {
    /// Read the link once more.
    Pump,
    /// The wait is over.
    Done(Result<Response, HarnessError>),
    /// Look at the clock.
    CheckClock,
}

/// What a read brought, or why it failed.
pub open spec fn batch_of(read: Result<Vec<Delivery>, String>) -> Result<Seq<Delivery>, String> {
    match read {
        Ok(batch) => Ok(batch@),
        Err(why) => Err(why),
    }
}

/// What a wait does next at `now`.
pub open spec fn at_clock(wait: ResponseWait, now: Instant) -> WaitAction {
    if now.nanos >= wait.deadline.nanos {
        WaitAction::Done(Err(HarnessError::Timeout))
    } else {
        WaitAction::Pump
    }
}

/// What a wait does next behind a read.
pub open spec fn behind_read(
    wait: ResponseWait,
    read: Result<Seq<Delivery>, String>,
) -> WaitAction {
    match read {
        Err(why) => WaitAction::Done(Err(HarnessError::Read(why))),
        Ok(batch) => match answer(batch, wait.id) {
            Some(resp) => WaitAction::Done(Ok(resp)),
            None => WaitAction::CheckClock,
        },
    }
}

/// The log lines that a read brought.
pub open spec fn lines_of(read: Result<Seq<Delivery>, String>) -> Seq<Seq<char>> {
    match read {
        Err(_) => seq![],
        Ok(batch) => log_lines(batch),
    }
}

impl ResponseWait {
    /// The clock was read: past the deadline the wait is given up.
    pub fn on_clock(&self, now: Instant) -> (r: WaitAction)
        ensures
            r == at_clock(*self, now),
    {
        if now.nanos >= self.deadline.nanos {
            WaitAction::Done(Err(HarnessError::Timeout))
        } else {
            WaitAction::Pump
        }
    }

    fn mismatch(&self, got: u32) -> (r: String)
        requires
            got != self.id,
        ensures
            forall|resp: Response|
                resp.id == got ==> seq![r@] == #[trigger] notice(
                    Delivery::Frame(DeviceFrame::Response(resp)),
                    self.id,
                ),
    {
        let mut line = String::new();
        push_text(&mut line, "WARN [demux]: received response id=");
        push_decimal(&mut line, got as u64);
        push_text(&mut line, " while waiting for id=");
        push_decimal(&mut line, self.id as u64);
        push_text(&mut line, "; skipping");
        assert(line@ =~= "WARN [demux]: received response id="@ + text::decimal(got as nat)
            + " while waiting for id="@ + text::decimal(self.id as nat) + "; skipping"@);
        line
    }

    /// The link was read. Log lines are kept in `logs_out` and shown, responses to
    /// other requests are reported and skipped, what is no frame is shown, and the
    /// response to this request ends the wait once the whole batch is through. The
    /// lines to show come back in order.
    pub fn on_pumped(
        &self,
        read: Result<Vec<Delivery>, String>,
        logs_out: &mut Vec<String>,
    ) -> (r: (WaitAction, Vec<String>))
        ensures
            r.0 == behind_read(*self, batch_of(read)),
            text::texts(final(logs_out)@) == text::texts(old(logs_out)@) + lines_of(
                batch_of(read),
            ),
            text::texts(r.1@) == match read {
                Err(_) => Seq::<Seq<char>>::empty(),
                Ok(batch) => notices(batch@, self.id),
            },
    {
        let mut shown: Vec<String> = Vec::new();
        assert(text::texts(shown@) =~= seq![]);
        assert(text::texts(logs_out@) =~= text::texts(logs_out@) + Seq::<Seq<char>>::empty());
        let mut batch = match read {
            Ok(batch) => batch,
            Err(why) => {
                return (WaitAction::Done(Err(HarnessError::Read(why))), shown);
            },
        };
        let mut found: Option<usize> = None;
        let mut i: usize = 0;
        let ghost id = self.id;
        while i < batch.len()
            invariant
                i <= batch.len(),
                id == self.id,
                text::texts(logs_out@) == text::texts(old(logs_out)@) + log_lines(
                    batch@.take(i as int),
                ),
                text::texts(shown@) == notices(batch@.take(i as int), id),
                match found {
                    None => answer(batch@.take(i as int), id) is None,
                    Some(k) => {
                        &&& k < i
                        &&& batch@[k as int] matches Delivery::Frame(DeviceFrame::Response(resp))
                            && answer(batch@.take(i as int), id) == Some(resp)
                    },
                },
            decreases batch.len() - i,
        {
            let ghost before = batch@.take(i as int);
            let ghost kept = logs_out@;
            let ghost seen = shown@;
            assert(batch@.take(i + 1).drop_last() =~= before);
            match &batch[i] {
                Delivery::Frame(DeviceFrame::Response(resp)) => {
                    if resp.id == self.id {
                        found = Some(i);
                    } else {
                        shown.push(self.mismatch(resp.id));
                    }
                },
                Delivery::Frame(DeviceFrame::Log(log)) => {
                    let line = format_log(log);
                    shown.push(line.clone());
                    logs_out.push(line);
                    assert(text::texts(logs_out@) =~= text::texts(kept).push(
                        display::log_text(*log),
                    ));
                    assert(text::texts(logs_out@) =~= text::texts(old(logs_out)@) + log_lines(
                        batch@.take(i + 1),
                    ));
                },
                Delivery::Frame(DeviceFrame::Heartbeat) => {},
                Delivery::Discarded { why, dump } => {
                    shown.push(why.clone());
                    shown.push(dump.clone());
                },
            }
            assert(text::texts(shown@) =~= text::texts(seen) + notice(batch@[i as int], id));
            i = i + 1;
        }
        assert(batch@.take(i as int) =~= batch@);
        match found {
            None => (WaitAction::CheckClock, shown),
            Some(k) => {
                let arrived = batch.swap_remove(k);
                match arrived {
                    Delivery::Frame(DeviceFrame::Response(resp)) => {
                        (WaitAction::Done(Ok(resp)), shown)
                    },
                    _ => (WaitAction::CheckClock, shown),
                }
            },
        }
    }
}

/// Collects log lines with no request under way, up to a deadline or a line that
/// holds a given text.
#[derive(Debug)]
pub struct LogDrain {
    /// The text whose line ends the drain.
    pub stop_token: Option<String>,
    /// When the drain ends at the latest.
    pub deadline: Instant,
}

/// What a drain does next.
#[derive(Debug, PartialEq, Eq)]
pub enum DrainAction {
    /// Read the link once more.
    Pump,
    /// The drain is over.
    Done(Result<(), HarnessError>),
    /// Look at the clock.
    CheckClock,
}

/// One of `lines` holds the text that ends the drain.
pub open spec fn stops(stop_token: Option<String>, lines: Seq<Seq<char>>) -> bool {
    stop_token matches Some(token) && exists|i: int|
        0 <= i < lines.len() && text::occurs(#[trigger] lines[i], token@)
}

/// What an operator is told of something that arrives during a drain.
pub open spec fn drain_notice(arrived: Delivery) -> Seq<Seq<char>> {
    match arrived {
        Delivery::Frame(DeviceFrame::Response(resp)) => seq![
            "WARN [demux]: received response id="@ + text::decimal(resp.id as nat)
                + " during an idle log-drain window (no command in flight); skipping"@,
        ],
        Delivery::Frame(DeviceFrame::Log(log)) => seq![display::log_text(log)],
        Delivery::Frame(DeviceFrame::Heartbeat) => seq![],
        Delivery::Discarded { why, dump } => seq![why@, dump@],
    }
}

/// What an operator is told of `batch` during a drain.
pub open spec fn drain_notices(batch: Seq<Delivery>) -> Seq<Seq<char>>
    decreases batch.len(),
{
    if batch.len() == 0 {
        seq![]
    } else {
        drain_notices(batch.drop_last()) + drain_notice(batch.last())
    }
}

/// The lines kept by a drain, without when they arrived.
pub open spec fn kept_lines(kept: Seq<(Instant, String)>) -> Seq<Seq<char>> {
    kept.map_values(|entry: (Instant, String)| entry.1@)
}

fn stray_line(id: u32) -> (r: String)
    ensures
        forall|resp: Response|
            resp.id == id ==> seq![r@] == #[trigger] drain_notice(
                Delivery::Frame(DeviceFrame::Response(resp)),
            ),
{
    let mut line = String::new();
    push_text(&mut line, "WARN [demux]: received response id=");
    push_decimal(&mut line, id as u64);
    push_text(&mut line, " during an idle log-drain window (no command in flight); skipping");
    assert(line@ =~= "WARN [demux]: received response id="@ + text::decimal(id as nat)
        + " during an idle log-drain window (no command in flight); skipping"@);
    line
}

impl LogDrain {
    /// The clock was read: running to the deadline is the normal end.
    pub fn on_clock(&self, now: Instant) -> (r: DrainAction)
        ensures
            r == if now.nanos >= self.deadline.nanos {
                DrainAction::Done(Ok(()))
            } else {
                DrainAction::Pump
            },
    {
        if now.nanos >= self.deadline.nanos {
            DrainAction::Done(Ok(()))
        } else {
            DrainAction::Pump
        }
    }

    /// Whether the line ends the drain.
    fn is_last(&self, line: &String) -> (r: bool)
        ensures
            r == (self.stop_token matches Some(token) && text::occurs(line@, token@)),
    {
        match &self.stop_token {
            Some(token) => contains_text(line.as_str(), token.as_str()),
            None => false,
        }
    }

    /// The link was read at `at`. Log lines are kept in `logs_out` and shown, stray
    /// responses are reported and skipped, what is no frame is shown. The drain ends
    /// behind a batch that holds the text it looks for. The lines to show come back in
    /// order.
    pub fn on_pumped(
        &self,
        read: Result<Vec<Delivery>, String>,
        at: Instant,
        logs_out: &mut Vec<(Instant, String)>,
    ) -> (r: (DrainAction, Vec<String>))
        ensures
            match read {
                Err(why) => {
                    &&& r.0 == DrainAction::Done(Err(HarnessError::Read(why)))
                    &&& final(logs_out)@ == old(logs_out)@
                    &&& text::texts(r.1@) == Seq::<Seq<char>>::empty()
                },
                Ok(batch) => {
                    &&& r.0 == if stops(self.stop_token, log_lines(batch@)) {
                        DrainAction::Done(Ok(()))
                    } else {
                        DrainAction::CheckClock
                    }
                    &&& kept_lines(final(logs_out)@) == kept_lines(old(logs_out)@) + log_lines(
                        batch@,
                    )
                    &&& old(logs_out)@ == final(logs_out)@.take(old(logs_out)@.len() as int)
                    &&& forall|i: int|
                        old(logs_out)@.len() <= i < final(logs_out)@.len()
                            ==> #[trigger] final(logs_out)@[i].0 == at
                    &&& text::texts(r.1@) == drain_notices(batch@)
                },
            },
    {
        let mut shown: Vec<String> = Vec::new();
        assert(text::texts(shown@) =~= seq![]);
        let batch = match read {
            Ok(batch) => batch,
            Err(why) => {
                return (DrainAction::Done(Err(HarnessError::Read(why))), shown);
            },
        };
        let mut stop = false;
        let mut i: usize = 0;
        let ghost start = logs_out@;
        assert(kept_lines(logs_out@) =~= kept_lines(start) + log_lines(batch@.take(0)));
        assert(logs_out@.take(start.len() as int) =~= start);
        while i < batch.len()
            invariant
                i <= batch.len(),
                start == old(logs_out)@,
                kept_lines(logs_out@) == kept_lines(start) + log_lines(batch@.take(i as int)),
                start.len() <= logs_out@.len(),
                logs_out@.take(start.len() as int) == start,
                forall|k: int|
                    start.len() <= k < logs_out@.len() ==> #[trigger] logs_out@[k].0 == at,
                text::texts(shown@) == drain_notices(batch@.take(i as int)),
                stop == stops(self.stop_token, log_lines(batch@.take(i as int))),
            decreases batch.len() - i,
        {
            let ghost before = batch@.take(i as int);
            let ghost kept = logs_out@;
            let ghost seen = shown@;
            assert(batch@.take(i + 1).drop_last() =~= before);
            match &batch[i] {
                Delivery::Frame(DeviceFrame::Response(resp)) => {
                    shown.push(stray_line(resp.id));
                },
                Delivery::Frame(DeviceFrame::Log(log)) => {
                    let line = format_log(log);
                    shown.push(line.clone());
                    let last = self.is_last(&line);
                    proof {
                        let lines = log_lines(before);
                        let grown = lines.push(line@);
                        assert(log_lines(batch@.take(i + 1)) =~= grown);
                        assert(stops(self.stop_token, grown) == (stop || last)) by {
                            if stop {
                                let token = self.stop_token->0;
                                let k = choose|k: int|
                                    0 <= k < lines.len() && text::occurs(
                                        #[trigger] lines[k],
                                        token@,
                                    );
                                assert(grown[k] == lines[k]);
                            }
                            if last {
                                assert(grown[lines.len() as int] == line@);
                            }
                            if stops(self.stop_token, grown) {
                                let token = self.stop_token->0;
                                let k = choose|k: int|
                                    0 <= k < grown.len() && text::occurs(
                                        #[trigger] grown[k],
                                        token@,
                                    );
                                if k < lines.len() {
                                    assert(lines[k] == grown[k]);
                                }
                            }
                        }
                    }
                    if last {
                        stop = true;
                    }
                    logs_out.push((at, line));
                    assert(kept_lines(logs_out@) =~= kept_lines(kept).push(
                        display::log_text(*log),
                    ));
                    assert(kept_lines(logs_out@) =~= kept_lines(start) + log_lines(
                        batch@.take(i + 1),
                    ));
                    assert(logs_out@.take(start.len() as int) =~= start);
                },
                Delivery::Frame(DeviceFrame::Heartbeat) => {},
                Delivery::Discarded { why, dump } => {
                    shown.push(why.clone());
                    shown.push(dump.clone());
                },
            }
            assert(text::texts(shown@) =~= text::texts(seen) + drain_notice(batch@[i as int]));
            i = i + 1;
        }
        assert(batch@.take(i as int) =~= batch@);
        if stop {
            (DrainAction::Done(Ok(())), shown)
        } else {
            (DrainAction::CheckClock, shown)
        }
    }
}

/// A response to another request never ends a wait: where nothing has the id, there is
/// no answer.
pub proof fn a_stale_response_answers_nothing(batch: Seq<Delivery>, id: u32)
    requires
        forall|i: int| 0 <= i < batch.len() ==> !is_answer(#[trigger] batch[i], id),
    ensures
        answer(batch, id) is None,
    decreases batch.len(),
{
    if batch.len() > 0 {
        let front = batch.drop_last();
        assert forall|i: int| 0 <= i < front.len() implies !is_answer(#[trigger] front[i], id) by {
            assert(front[i] == batch[i]);
        }
        a_stale_response_answers_nothing(front, id);
        assert(!is_answer(batch[batch.len() - 1], id));
    }
}

/// A response with the id is found whatever surrounds it, and the answer has that id.
pub proof fn a_matching_response_is_found(batch: Seq<Delivery>, id: u32, k: int)
    requires
        0 <= k < batch.len(),
        is_answer(batch[k], id),
    ensures
        answer(batch, id) is Some,
        answer(batch, id)->0.id == id,
    decreases batch.len(),
{
    if !is_answer(batch.last(), id) {
        assert(batch.drop_last()[k] == batch[k]);
        a_matching_response_is_found(batch.drop_last(), id, k);
    }
}

/// An answer came in the batch and has the id.
proof fn an_answer_arrived(batch: Seq<Delivery>, id: u32)
    requires
        answer(batch, id) is Some,
    ensures
        answer(batch, id)->0.id == id,
        batch.contains(Delivery::Frame(DeviceFrame::Response(answer(batch, id)->0))),
    decreases batch.len(),
{
    if is_answer(batch.last(), id) {
        assert(batch[batch.len() - 1] == batch.last());
    } else {
        let front = batch.drop_last();
        an_answer_arrived(front, id);
        let arrived = Delivery::Frame(DeviceFrame::Response(answer(batch, id)->0));
        let k = choose|k: int| 0 <= k < front.len() && front[k] == arrived;
        assert(batch[k] == arrived);
    }
}

/// The log lines of two batches are those of one behind the other.
proof fn log_lines_join(a: Seq<Delivery>, b: Seq<Delivery>)
    ensures
        log_lines(a + b) == log_lines(a) + log_lines(b),
    decreases b.len(),
{
    if b.len() == 0 {
        assert(a + b =~= a);
        assert(log_lines(a) + log_lines(b) =~= log_lines(a));
    } else {
        log_lines_join(a, b.drop_last());
        assert((a + b).drop_last() =~= a + b.drop_last());
        assert(log_lines(a + b) =~= log_lines(a) + log_lines(b));
    }
}

// ---- a whole exchange ----

/// One turn of a wait: the clock, and what the link is read to hold where it is read.
pub struct Round {
    /// The clock.
    pub now: Instant,
    /// What a read then brings.
    pub read: Result<Seq<Delivery>, String>,
}

/// How a wait comes out.
#[verifier::ext_equal]
pub struct Exchange {
    /// Its result, none where the rounds end before it is over.
    pub result: Option<Result<Response, HarnessError>>,
    /// The log lines kept.
    pub logs: Seq<Seq<char>>,
    /// What arrived, in order.
    pub received: Seq<Delivery>,
}

/// A wait over `rounds`, which keeps log lines behind `logs`: in each the clock is
/// looked at, and where it lets the wait go on, the link is read.
pub open spec fn exchange(
    wait: ResponseWait,
    rounds: Seq<Round>,
    logs: Seq<Seq<char>>,
) -> Exchange
    decreases rounds.len(),
{
    if rounds.len() == 0 {
        Exchange { result: None, logs, received: seq![] }
    } else {
        let round = rounds[0];
        match at_clock(wait, round.now) {
            WaitAction::Done(result) => Exchange { result: Some(result), logs, received: seq![] },
            _ => {
                let kept = logs + lines_of(round.read);
                let brought = match round.read {
                    Ok(batch) => batch,
                    Err(_) => seq![],
                };
                match behind_read(wait, round.read) {
                    WaitAction::Done(result) => Exchange {
                        result: Some(result),
                        logs: kept,
                        received: brought,
                    },
                    _ => {
                        let rest = exchange(wait, rounds.drop_first(), kept);
                        Exchange { received: brought + rest.received, ..rest }
                    },
                }
            },
        }
    }
}

/// A wait goes on behind `round`: its time is not up, and the read brings no answer.
pub open spec fn goes_on(wait: ResponseWait, round: Round) -> bool {
    &&& round.now.nanos < wait.deadline.nanos
    &&& round.read matches Ok(batch) && forall|i: int|
        0 <= i < batch.len() ==> !is_answer(#[trigger] batch[i], wait.id)
}

/// What the reads of `rounds` bring, one behind the other.
pub open spec fn all_brought(rounds: Seq<Round>) -> Seq<Delivery>
    decreases rounds.len(),
{
    if rounds.len() == 0 {
        seq![]
    } else {
        (match rounds[0].read {
            Ok(batch) => batch,
            Err(_) => seq![],
        }) + all_brought(rounds.drop_first())
    }
}

/// Whatever comes of a wait, the log lines kept are those of everything that arrived,
/// in order, behind those that were there.
pub proof fn every_log_line_is_kept_in_order(
    wait: ResponseWait,
    rounds: Seq<Round>,
    logs: Seq<Seq<char>>,
)
    ensures
        exchange(wait, rounds, logs).logs == logs + log_lines(
            exchange(wait, rounds, logs).received,
        ),
    decreases rounds.len(),
{
    let whole = exchange(wait, rounds, logs);
    if rounds.len() == 0 {
        assert(whole.logs =~= logs + log_lines(whole.received));
    } else {
        let round = rounds[0];
        if at_clock(wait, round.now) is Done {
            assert(whole.logs =~= logs + log_lines(whole.received));
        } else if behind_read(wait, round.read) is Done {
            assert(whole.logs =~= logs + log_lines(whole.received));
        } else {
            let batch = round.read->Ok_0;
            let kept = logs + log_lines(batch);
            let rest = exchange(wait, rounds.drop_first(), kept);
            every_log_line_is_kept_in_order(wait, rounds.drop_first(), kept);
            log_lines_join(batch, rest.received);
            assert(whole.logs =~= logs + log_lines(whole.received));
        }
    }
}

/// A response that a wait ends with arrived, and carries the id of the request. A wait
/// fails only by its deadline or by a read.
pub proof fn a_result_answers_the_request(
    wait: ResponseWait,
    rounds: Seq<Round>,
    logs: Seq<Seq<char>>,
)
    ensures
        ({
            let whole = exchange(wait, rounds, logs);
            match whole.result {
                Some(Ok(resp)) => resp.id == wait.id && whole.received.contains(
                    Delivery::Frame(DeviceFrame::Response(resp)),
                ),
                Some(Err(e)) => e is Timeout || e is Read,
                None => true,
            }
        }),
    decreases rounds.len(),
{
    if rounds.len() > 0 {
        let round = rounds[0];
        if !(at_clock(wait, round.now) is Done) {
            let next = behind_read(wait, round.read);
            if next is Done {
                if let Ok(batch) = round.read {
                    an_answer_arrived(batch, wait.id);
                }
            } else {
                let batch = round.read->Ok_0;
                let kept = logs + log_lines(batch);
                let rest = exchange(wait, rounds.drop_first(), kept);
                a_result_answers_the_request(wait, rounds.drop_first(), kept);
                if let Some(Ok(resp)) = rest.result {
                    let arrived = Delivery::Frame(DeviceFrame::Response(resp));
                    let k = choose|k: int|
                        0 <= k < rest.received.len() && rest.received[k] == arrived;
                    assert((batch + rest.received)[batch.len() + k] == arrived);
                }
            }
        }
    }
}

/// A wait that goes on through the rounds in front of round `n` ends there as that round
/// says: it is given up where its time is up, fails with the read's own error, or
/// returns the answer that the read brings. Responses to other requests, log lines,
/// signs of life and what is no frame end nothing. Everything logged until then is
/// kept.
pub proof fn a_wait_ends_at_its_round(
    wait: ResponseWait,
    rounds: Seq<Round>,
    logs: Seq<Seq<char>>,
    n: int,
)
    requires
        0 <= n < rounds.len(),
        forall|i: int| 0 <= i < n ==> goes_on(wait, #[trigger] rounds[i]),
        !goes_on(wait, rounds[n]),
    ensures
        ({
            let whole = exchange(wait, rounds, logs);
            let last = rounds[n];
            let before = logs + log_lines(all_brought(rounds.take(n)));
            if last.now.nanos >= wait.deadline.nanos {
                &&& whole.result == Some(Err::<Response, HarnessError>(HarnessError::Timeout))
                &&& whole.logs == before
            } else {
                match last.read {
                    Err(why) => {
                        &&& whole.result == Some(
                            Err::<Response, HarnessError>(HarnessError::Read(why)),
                        )
                        &&& whole.logs == before
                    },
                    Ok(batch) => {
                        &&& whole.result matches Some(Ok(resp)) && resp.id == wait.id && Some(resp)
                            == answer(batch, wait.id)
                        &&& whole.logs == before + log_lines(batch)
                    },
                }
            }
        }),
    decreases n,
{
    let whole = exchange(wait, rounds, logs);
    if n == 0 {
        assert(rounds.take(0) =~= seq![]);
        assert(logs + log_lines(all_brought(rounds.take(0))) =~= logs);
        let last = rounds[0];
        if last.now.nanos < wait.deadline.nanos {
            match last.read {
                Err(_) => {
                    assert(logs + lines_of(last.read) =~= logs);
                },
                Ok(batch) => {
                    let k = choose|k: int|
                        0 <= k < batch.len() && is_answer(#[trigger] batch[k], wait.id);
                    a_matching_response_is_found(batch, wait.id, k);
                },
            }
        }
    } else {
        let rest = rounds.drop_first();
        assert(goes_on(wait, rounds[0]));
        let batch = rounds[0].read->Ok_0;
        a_stale_response_answers_nothing(batch, wait.id);
        let kept = logs + log_lines(batch);
        assert forall|i: int| 0 <= i < n - 1 implies goes_on(wait, #[trigger] rest[i]) by {
            assert(rest[i] == rounds[i + 1]);
        }
        assert(rest[n - 1] == rounds[n]);
        a_wait_ends_at_its_round(wait, rest, kept, n - 1);
        assert(rounds.take(n).drop_first() =~= rest.take(n - 1));
        assert(rounds.take(n)[0] == rounds[0]);
        let later = all_brought(rest.take(n - 1));
        assert(all_brought(rounds.take(n)) == batch + later);
        log_lines_join(batch, later);
        assert(kept + log_lines(later) =~= logs + log_lines(batch + later));
    }
}

/// The waits of requests begun one after the other, and the harness behind them.
pub open spec fn begun_all(harness: Harness, deadlines: Seq<Instant>) -> (
    Harness,
    Seq<ResponseWait>,
)
    decreases deadlines.len(),
{
    if deadlines.len() == 0 {
        (harness, seq![])
    } else {
        let (before, waits) = begun_all(harness, deadlines.drop_last());
        let (after, wait) = begun(before, deadlines.last());
        (after, waits.push(wait))
    }
}

/// The requests of a new harness are numbered from one, in order.
pub proof fn requests_are_numbered_in_order(deadlines: Seq<Instant>, k: int)
    requires
        1 <= k <= deadlines.len() < u32::MAX,
    ensures
        begun_all(Harness { next_id: 1 }, deadlines).1[k - 1].id == k,
        begun_all(Harness { next_id: 1 }, deadlines).1[k - 1].deadline == deadlines[k - 1],
{
    numbered(deadlines);
    let waits = begun_all(Harness { next_id: 1 }, deadlines).1;
    assert(waits[k - 1].id == k);
}

proof fn numbered(deadlines: Seq<Instant>)
    requires
        deadlines.len() < u32::MAX,
    ensures
        ({
            let (harness, waits) = begun_all(Harness { next_id: 1 }, deadlines);
            &&& harness.next_id == deadlines.len() + 1
            &&& waits.len() == deadlines.len()
            &&& forall|i: int|
                0 <= i < waits.len() ==> (#[trigger] waits[i]).id == i + 1 && waits[i].deadline
                    == deadlines[i]
        }),
    decreases deadlines.len(),
{
    if deadlines.len() > 0 {
        numbered(deadlines.drop_last());
    }
}

/// Of several responses with the id in one batch the last is the answer.
pub proof fn the_last_answer_of_a_batch_counts(
    batch: Seq<Delivery>,
    id: u32,
    k: int,
    resp: Response,
)
    requires
        0 <= k < batch.len(),
        batch[k] == Delivery::Frame(DeviceFrame::Response(resp)),
        resp.id == id,
        forall|i: int|
            k < i < batch.len() ==> ((#[trigger] batch[i]) matches Delivery::Frame(
                DeviceFrame::Response(other),
            ) ==> other.id != id),
    ensures
        answer(batch, id) == Some(resp),
    decreases batch.len(),
{
    let last = batch.len() - 1;
    if k < last {
        assert(batch[last] == batch.last());
        let front = batch.drop_last();
        assert(front[k] == batch[k]);
        assert forall|i: int| k < i < front.len() implies ((
        #[trigger] front[i]) matches Delivery::Frame(DeviceFrame::Response(other)) ==> other.id
            != id) by {
            assert(front[i] == batch[i]);
        }
        the_last_answer_of_a_batch_counts(front, id, k, resp);
    }
}

/// Where no response in a batch has the id, it holds no answer, whatever else it holds.
pub proof fn another_id_answers_nothing(batch: Seq<Delivery>, id: u32)
    requires
        forall|i: int|
            0 <= i < batch.len() ==> ((#[trigger] batch[i]) matches Delivery::Frame(
                DeviceFrame::Response(other),
            ) ==> other.id != id),
    ensures
        answer(batch, id) is None,
{
    assert forall|i: int| 0 <= i < batch.len() implies !is_answer(#[trigger] batch[i], id) by {
        assert(batch[i] == batch[i]);
    }
    a_stale_response_answers_nothing(batch, id);
}

/// Log lines are kept one for each log frame, in order, and for nothing else.
pub proof fn log_lines_are_the_log_frames(
    first: Seq<Delivery>,
    then: Seq<Delivery>,
    one: Delivery,
)
    ensures
        log_lines(first + then) == log_lines(first) + log_lines(then),
        match one {
            Delivery::Frame(DeviceFrame::Log(log)) => log_lines(seq![one]) == seq![
                display::log_text(log),
            ],
            _ => log_lines(seq![one]) == Seq::<Seq<char>>::empty(),
        },
{
    log_lines_join(first, then);
    assert(seq![one].drop_last() =~= seq![]);
    assert(seq![one].last() == one);
    assert(log_lines(seq![]) =~= seq![]);
    if let Delivery::Frame(DeviceFrame::Log(log)) = one {
        assert(log_lines(seq![one]) =~= seq![display::log_text(log)]);
    }
}

/// What an operator is told comes in the order of arrival: log lines, what is no frame,
/// and responses to other requests by both ids; nothing of the answer itself and of
/// signs of life.
pub proof fn notices_keep_the_order_of_arrival(
    first: Seq<Delivery>,
    then: Seq<Delivery>,
    one: Delivery,
    id: u32,
)
    ensures
        notices(first + then, id) == notices(first, id) + notices(then, id),
        drain_notices(first + then) == drain_notices(first) + drain_notices(then),
        match one {
            Delivery::Frame(DeviceFrame::Log(log)) => {
                &&& notices(seq![one], id) == seq![display::log_text(log)]
                &&& drain_notices(seq![one]) == seq![display::log_text(log)]
            },
            Delivery::Frame(DeviceFrame::Heartbeat) => {
                &&& notices(seq![one], id) == Seq::<Seq<char>>::empty()
                &&& drain_notices(seq![one]) == Seq::<Seq<char>>::empty()
            },
            Delivery::Frame(DeviceFrame::Response(resp)) => {
                &&& resp.id == id ==> notices(seq![one], id) == Seq::<Seq<char>>::empty()
                &&& resp.id != id ==> notices(seq![one], id) == seq![
                    "WARN [demux]: received response id="@ + text::decimal(resp.id as nat)
                        + " while waiting for id="@ + text::decimal(id as nat) + "; skipping"@,
                ]
                &&& drain_notices(seq![one]) == seq![
                    "WARN [demux]: received response id="@ + text::decimal(resp.id as nat)
                        + " during an idle log-drain window (no command in flight); skipping"@,
                ]
            },
            Delivery::Discarded { why, dump } => {
                &&& notices(seq![one], id) == seq![why@, dump@]
                &&& drain_notices(seq![one]) == seq![why@, dump@]
            },
        },
    decreases then.len(),
{
    assert(seq![one].drop_last() =~= seq![]);
    assert(seq![one].last() == one);
    assert(notices(seq![], id) =~= seq![]);
    assert(drain_notices(seq![]) =~= seq![]);
    assert(notices(seq![one], id) =~= notice(one, id));
    assert(drain_notices(seq![one]) =~= drain_notice(one));
    if then.len() == 0 {
        assert(first + then =~= first);
        assert(notices(first, id) + notices(then, id) =~= notices(first, id));
        assert(drain_notices(first) + drain_notices(then) =~= drain_notices(first));
    } else {
        assert((first + then).drop_last() =~= first + then.drop_last());
        notices_keep_the_order_of_arrival(first, then.drop_last(), one, id);
        assert(notices(first + then, id) =~= notices(first, id) + notices(then, id));
        assert(drain_notices(first + then) =~= drain_notices(first) + drain_notices(then));
    }
}

/// A drain ends behind a batch exactly where it looks for a text and one of the lines
/// holds it.
pub proof fn a_drain_stops_at_its_text(stop_token: Option<String>, lines: Seq<Seq<char>>)
    ensures
        stop_token is None ==> !stops(stop_token, lines),
        stop_token matches Some(token) ==> (stops(stop_token, lines) <==> exists|i: int|
            0 <= i < lines.len() && text::occurs(#[trigger] lines[i], token@)),
{
}

/// Every error is told with what failed and with what was said of it.
pub proof fn an_error_says_what_failed(why: String)
    ensures
        error_text(HarnessError::Timeout) == "response timeout"@,
        error_text(HarnessError::Write(why)) == "write error: "@ + why@,
        error_text(HarnessError::Read(why)) == "serial read error: "@ + why@,
        error_text(HarnessError::Encode(why)) == "request encode failed: "@ + why@,
{
}

/// A wait is given up exactly at its deadline, read errors end it with their own words,
/// and a batch without an answer lets it go on.
pub proof fn a_wait_goes_on_until_something_ends_it(
    wait: ResponseWait,
    now: Instant,
    why: String,
    batch: Seq<Delivery>,
)
    ensures
        now.nanos < wait.deadline.nanos ==> at_clock(wait, now) == WaitAction::Pump,
        now.nanos >= wait.deadline.nanos ==> at_clock(wait, now) == WaitAction::Done(
            Err::<Response, HarnessError>(HarnessError::Timeout),
        ),
        behind_read(wait, Err(why)) == WaitAction::Done(
            Err::<Response, HarnessError>(HarnessError::Read(why)),
        ),
        answer(batch, wait.id) matches Some(resp) ==> behind_read(wait, Ok(batch))
            == WaitAction::Done(Ok::<Response, HarnessError>(resp)),
        answer(batch, wait.id) is None ==> behind_read(wait, Ok(batch)) == WaitAction::CheckClock,
        lines_of(Err(why)) == Seq::<Seq<char>>::empty(),
        lines_of(Ok(batch)) == log_lines(batch),
{
}

/// A batch is what was read, a drain keeps its lines as they are, and a request takes the
/// next number.
pub proof fn what_was_read_is_the_batch(
    batch: Vec<Delivery>,
    why: String,
    kept: Seq<(Instant, String)>,
    i: int,
    harness: Harness,
    deadline: Instant,
)
    requires
        0 <= i < kept.len(),
        harness.next_id < u32::MAX,
    ensures
        batch_of(Ok(batch)) == Ok::<Seq<Delivery>, String>(batch@),
        batch_of(Err(why)) == Err::<Seq<Delivery>, String>(why),
        kept_lines(kept).len() == kept.len(),
        kept_lines(kept)[i] == kept[i].1@,
        begun(harness, deadline).0.next_id == harness.next_id + 1,
        begun(harness, deadline).1.id == harness.next_id,
        begun(harness, deadline).1.deadline == deadline,
{
}

} // verus!
