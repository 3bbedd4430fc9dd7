//! Bytes off the serial link, cut into frames.
//!
//! A frame is a run of bytes that ends in a zero. The device frames its output
//! with consistent-overhead byte stuffing, but a device that crashes writes raw
//! text, so every run that cannot be a frame is handed out to be shown rather
//! than dropped in silence.

use postcard::accumulator::{CobsAccumulator, FeedResult};

use vstd::prelude::*;

use crate::protocol::DeviceFrame;
use crate::text::{self, push_decimal, push_text};
use crate::transport::dump::{self, render_dump};

verus! {

/// Bytes the accumulator holds; a longer run cannot be a frame.
pub const ACC_CAP: usize = 1024;

/// Bytes one read of the serial port asks for.
pub const READ_BUF: usize = 256;

/// `postcard::accumulator::CobsAccumulator`, which collects a run of bytes.
#[verifier::external_type_specification]
#[verifier::external_body]
pub struct ExCobsAccumulator<const N: usize>(CobsAccumulator<N>);

/// The bytes an accumulator holds since the last frame boundary.
pub uninterp spec fn held_bytes(acc: CobsAccumulator<1024>) -> Seq<u8>;

/// The bytes in front of a run's zero are well stuffed: they are blocks, each led
/// by its own length, that fill them exactly.
pub open spec fn well_stuffed(blocks: Seq<u8>) -> bool
    decreases blocks.len(),
{
    blocks.len() == 0 || (1 <= blocks[0] <= blocks.len() && well_stuffed(
        blocks.skip(blocks[0] as int),
    ))
}

/// A run that has not ended.
pub open spec fn open_run(bytes: Seq<u8>) -> bool {
    &&& bytes.len() <= 1024
    &&& forall|i: int| 0 <= i < bytes.len() ==> #[trigger] bytes[i] != 0
}

/// What feeding an accumulator came to; the slice is what was not taken.
pub(crate) enum Fed<'a> {
    /// Everything was taken and no run has ended.
    Pending,
    /// The run outgrew the accumulator.
    OverFull(&'a [u8]),
    /// A run ended and is not well stuffed.
    Corrupt(&'a [u8]),
    /// A run ended and is well stuffed.
    Whole(&'a [u8]),
}

/// An empty accumulator. Calls `CobsAccumulator::new`, which holds nothing.
#[verifier::external_body]
fn new_accumulator() -> (r: CobsAccumulator<1024>)
    ensures
        held_bytes(r) == Seq::<u8>::empty(),
{
    CobsAccumulator::new()
}

/// The first zero of `input`, or its length where there is none.
pub open spec fn first_zero(input: Seq<u8>) -> int
    decreases input.len(),
{
    if input.len() == 0 || input[0] == 0 {
        0
    } else {
        1 + first_zero(input.drop_first())
    }
}

/// Bytes of `input` that belong to the run in front of it: up to and with its
/// first zero, or all of it.
pub open spec fn run_len(input: Seq<u8>) -> int {
    if first_zero(input) < input.len() {
        first_zero(input) + 1
    } else {
        input.len() as int
    }
}

/// Calls `CobsAccumulator::feed` for a message without content, so that only the
/// stuffing of a run is judged. The run in front of `input` goes behind what is
/// held. A run that does not fit empties the accumulator: of one that ends in
/// `input` the rest is what follows its zero, of another what follows the bytes
/// that still fitted. A run that fits and ends empties the accumulator too and is
/// judged; one that does not end is held.
#[verifier::external_body]
fn feed<'a>(acc: &mut CobsAccumulator<1024>, input: &'a [u8]) -> (r: Fed<'a>)
    requires
        input.len() > 0,
        open_run(held_bytes(*old(acc))),
    ensures
        ({
            let held = held_bytes(*old(acc));
            let ends = first_zero(input@) < input.len();
            let run = held + input@.take(run_len(input@));
            let rest = input@.skip(run_len(input@));
            match r {
                Fed::Pending => !ends && run.len() <= 1024 && held_bytes(*final(acc)) == run,
                Fed::OverFull(left) => {
                    &&& run.len() > 1024
                    &&& held_bytes(*final(acc)) == Seq::<u8>::empty()
                    &&& left@ == if ends {
                        rest
                    } else {
                        input@.skip(1024 - held.len())
                    }
                },
                Fed::Corrupt(left) => {
                    &&& ends && run.len() <= 1024 && !well_stuffed(run.drop_last())
                    &&& held_bytes(*final(acc)) == Seq::<u8>::empty()
                    &&& left@ == rest
                },
                Fed::Whole(left) => {
                    &&& ends && run.len() <= 1024 && well_stuffed(run.drop_last())
                    &&& held_bytes(*final(acc)) == Seq::<u8>::empty()
                    &&& left@ == rest
                },
            }
        }),
{
    match acc.feed::<()>(input) {
        FeedResult::Consumed => Fed::Pending,
        FeedResult::OverFull(left) => Fed::OverFull(left),
        FeedResult::DeserError(left) => Fed::Corrupt(left),
        FeedResult::Success { remaining, .. } => Fed::Whole(remaining),
    }
}

/// Something that came off the link.
#[derive(Debug, PartialEq, Eq)]
pub enum PumpItem {
    /// A well-stuffed run, its zero at the end.
    Frame(Vec<u8>),
    /// A run that is not well stuffed, its zero at the end.
    Corrupt(Vec<u8>),
    /// The beginning of a run that outgrew the accumulator.
    OverFull(Vec<u8>),
}

/// A [`PumpItem`] as a mathematical value.
#[verifier::ext_equal]
pub enum ItemView {
    /// A well-stuffed run.
    Frame(Seq<u8>),
    /// A run that is not well stuffed.
    Corrupt(Seq<u8>),
    /// The beginning of a run that outgrew the accumulator.
    OverFull(Seq<u8>),
}

impl View for PumpItem {
    type V = ItemView;

    open spec fn view(&self) -> ItemView {
        match self {
            PumpItem::Frame(bytes) => ItemView::Frame(bytes@),
            PumpItem::Corrupt(bytes) => ItemView::Corrupt(bytes@),
            PumpItem::OverFull(bytes) => ItemView::OverFull(bytes@),
        }
    }
}

/// What a run that ended is: a frame where it is well stuffed, and no frame where
/// it is not or does not fit.
pub open spec fn judged(run: Seq<u8>) -> ItemView {
    if run.len() > 1024 {
        ItemView::OverFull(run.take(1024))
    } else if well_stuffed(run.drop_last()) {
        ItemView::Frame(run)
    } else {
        ItemView::Corrupt(run)
    }
}

/// What comes off the link when `input` arrives behind `held`: the items in order,
/// and what is then held.
pub open spec fn demux(held: Seq<u8>, input: Seq<u8>) -> (Seq<ItemView>, Seq<u8>)
    decreases input.len(), held.len(),
    when held.len() <= 1024
{
    let ends = first_zero(input) < input.len();
    let run = held + input.take(run_len(input));
    if input.len() == 0 {
        (seq![], held)
    } else if ends {
        proof {
            first_zero_is_first(input);
        }
        let (items, left) = demux(seq![], input.skip(run_len(input)));
        (seq![judged(run)] + items, left)
    } else if run.len() > 1024 {
        let (items, left) = demux(seq![], input.skip(1024 - held.len()));
        (seq![ItemView::OverFull(run.take(1024))] + items, left)
    } else {
        (seq![], run)
    }
}

/// What one read of the link came to.
#[derive(Debug)]
pub enum PortRead<'a, E> {
    /// It brought these bytes, or none.
    Bytes(&'a [u8]),
    /// It ran out of time.
    TimedOut,
    /// It failed.
    Failed(E),
}

/// The bytes that a read brought.
pub open spec fn bytes_of<E>(read: PortRead<'_, E>) -> Seq<u8> {
    match read {
        PortRead::Bytes(bytes) => bytes@,
        _ => Seq::empty(),
    }
}

/// What a read that did not fail hands out.
#[derive(Debug, PartialEq, Eq)]
pub struct Pumped {
    /// The read brought bytes.
    pub read: bool,
    /// What they completed, in order.
    pub items: Vec<PumpItem>,
}

/// What becomes of something that came off the link.
#[derive(Debug, PartialEq, Eq)]
pub enum Delivery {
    /// It is a frame.
    Frame(DeviceFrame),
    /// It is none, and is shown rather than dropped in silence.
    Discarded {
        /// The line that says why.
        why: String,
        /// The line that shows the bytes.
        dump: String,
    },
}

/// Reads frames off a serial link.
pub struct FrameReader {
    acc: CobsAccumulator<1024>,
    label: Option<String>,
    shadow: Vec<u8>,
}

/// The text of an optional label.
pub open spec fn label_text(label: Option<String>) -> Option<Seq<char>> {
    match label {
        Some(l) => Some(l@),
        None => None,
    }
}

impl FrameReader {
    /// The bytes held since the last frame boundary.
    pub closed spec fn held(&self) -> Seq<u8> {
        self.shadow@
    }

    /// What the reader calls its link in warnings.
    pub closed spec fn name(&self) -> Option<Seq<char>> {
        label_text(self.label)
    }

    /// The mirror of what the accumulator holds is exact, and within its capacity.
    pub closed spec fn wf(&self) -> bool {
        &&& self.shadow@ == held_bytes(self.acc)
        &&& open_run(self.shadow@)
    }

    /// A reader that holds nothing, for a link without a name.
    pub fn new() -> (r: FrameReader)
        ensures
            r.wf(),
            r.held() == Seq::<u8>::empty(),
            r.name() is None,
    {
        FrameReader { acc: new_accumulator(), label: None, shadow: Vec::new() }
    }

    /// A reader that holds nothing, for the link called `label`.
    pub fn with_label(label: String) -> (r: FrameReader)
        ensures
            r.wf(),
            r.held() == Seq::<u8>::empty(),
            r.name() == Some(label@),
    {
        FrameReader { acc: new_accumulator(), label: Some(label), shadow: Vec::new() }
    }

    /// Mirrors bytes that went to the accumulator, as far as its capacity.
    fn extend_shadow(&mut self, bytes: &[u8])
        requires
            old(self).shadow@.len() <= 1024,
        ensures
            final(self).acc == old(self).acc,
            final(self).label == old(self).label,
            final(self).shadow@.len() <= 1024,
            final(self).shadow@ == if old(self).shadow@.len() + bytes.len() <= 1024 {
                old(self).shadow@ + bytes@
            } else {
                (old(self).shadow@ + bytes@).take(1024)
            },
    {
        let room: usize = ACC_CAP - self.shadow.len();
        let ghost before = self.shadow@;
        let mut i: usize = 0;
        assert(before + bytes@.take(0) =~= before);
        while i < bytes.len() && i < room
            invariant
                i <= bytes.len(),
                i <= room,
                room == 1024 - before.len(),
                before.len() <= 1024,
                self.shadow@ == before + bytes@.take(i as int),
                self.acc == old(self).acc,
                self.label == old(self).label,
            decreases bytes.len() - i,
        {
            self.shadow.push(bytes[i]);
            i = i + 1;
            assert(self.shadow@ =~= before + bytes@.take(i as int));
        }
        proof {
            if before.len() + bytes@.len() <= 1024 {
                assert(bytes@.take(i as int) =~= bytes@);
            } else {
                assert(self.shadow@ =~= (before + bytes@).take(1024));
            }
        }
    }

    /// Hands out the mirrored bytes and starts a new mirror.
    fn take_shadow(&mut self) -> (r: Vec<u8>)
        ensures
            r@ == old(self).shadow@,
            final(self).shadow@ == Seq::<u8>::empty(),
            final(self).acc == old(self).acc,
            final(self).label == old(self).label,
    {
        let mut out: Vec<u8> = Vec::new();
        std::mem::swap(&mut out, &mut self.shadow);
        out
    }

    /// Takes bytes off the link and hands out everything they complete, in the order it
    /// arrived.
    fn take_bytes(&mut self, chunk: &[u8]) -> (r: Vec<PumpItem>)
        requires
            old(self).wf(),
        ensures
            final(self).wf(),
            final(self).name() == old(self).name(),
            r@.map_values(|item: PumpItem| item@) == demux(old(self).held(), chunk@).0,
            final(self).held() == demux(old(self).held(), chunk@).1,
    {
        let mut items: Vec<PumpItem> = Vec::new();
        let mut rest: &[u8] = chunk;
        let ghost full = demux(self.held(), chunk@);
        let ghost see = |item: PumpItem| item@;
        assert(items@.map_values(see) + full.0 =~= full.0);
        while rest.len() > 0
            invariant
                self.wf(),
                self.name() == old(self).name(),
                see == (|item: PumpItem| item@),
                items@.map_values(see) + demux(self.held(), rest@).0 == full.0,
                demux(self.held(), rest@).1 == full.1,
            decreases rest.len(), self.held().len(),
        {
            let ghost held = self.shadow@;
            let ghost before = items@;
            let ghost step = demux(held, rest@);
            let ghost run = held + rest@.take(run_len(rest@));
            proof {
                first_zero_is_first(rest@);
            }
            match feed(&mut self.acc, rest) {
                Fed::Pending => {
                    self.extend_shadow(rest);
                    assert(rest@.take(run_len(rest@)) =~= rest@);
                    let (_, none) = rest.split_at(rest.len());
                    rest = none;
                    assert(demux(self.shadow@, rest@).0 =~= seq![]);
                    assert(step.0 =~= seq![]);
                },
                Fed::OverFull(left) => {
                    let taken: usize = rest.len() - left.len();
                    let (used, _) = rest.split_at(taken);
                    self.extend_shadow(used);
                    let bytes = self.take_shadow();
                    proof {
                        assert(used@ =~= rest@.take(taken as int));
                        assert(bytes@ =~= run.take(1024));
                    }
                    items.push(PumpItem::OverFull(bytes));
                    self.acc = new_accumulator();
                    rest = left;
                    assert(items@.map_values(see) =~= before.map_values(see).push(
                        ItemView::OverFull(run.take(1024)),
                    ));
                    assert(items@.map_values(see) + demux(self.shadow@, rest@).0
                        =~= before.map_values(see) + step.0);
                },
                Fed::Corrupt(left) => {
                    let taken: usize = rest.len() - left.len();
                    let (used, _) = rest.split_at(taken);
                    self.extend_shadow(used);
                    let bytes = self.take_shadow();
                    proof {
                        assert(used@ =~= rest@.take(taken as int));
                        assert(bytes@ =~= run);
                    }
                    items.push(PumpItem::Corrupt(bytes));
                    rest = left;
                    assert(items@.map_values(see) =~= before.map_values(see).push(judged(run)));
                    assert(items@.map_values(see) + demux(self.shadow@, rest@).0
                        =~= before.map_values(see) + step.0);
                },
                Fed::Whole(left) => {
                    let taken: usize = rest.len() - left.len();
                    let (used, _) = rest.split_at(taken);
                    self.extend_shadow(used);
                    let bytes = self.take_shadow();
                    proof {
                        assert(used@ =~= rest@.take(taken as int));
                        assert(bytes@ =~= run);
                    }
                    items.push(PumpItem::Frame(bytes));
                    rest = left;
                    assert(items@.map_values(see) =~= before.map_values(see).push(judged(run)));
                    assert(items@.map_values(see) + demux(self.shadow@, rest@).0
                        =~= before.map_values(see) + step.0);
                },
            }
        }
        assert(items@.map_values(see) + demux(self.held(), rest@).0 =~= items@.map_values(see));
        items
    }

    /// Takes what one read of the link came to. Bytes are cut into everything they
    /// complete, in the order it arrived; a read that brings none, or that runs out of
    /// time, hands out nothing; any other failure is handed on and changes nothing.
    pub fn pump<E>(&mut self, read: PortRead<'_, E>) -> (r: Result<Pumped, E>)
        requires
            old(self).wf(),
        ensures
            final(self).wf(),
            final(self).name() == old(self).name(),
            final(self).held() == demux(old(self).held(), bytes_of(read)).1,
            match read {
                PortRead::Failed(e) => r == Err::<Pumped, E>(e),
                _ => r matches Ok(pumped) && pumped.read == (bytes_of(read).len() > 0)
                    && pumped.items@.map_values(|item: PumpItem| item@) == demux(
                    old(self).held(),
                    bytes_of(read),
                ).0,
            },
    {
        match read {
            PortRead::Bytes(chunk) => {
                let read = chunk.len() > 0;
                let items = self.take_bytes(chunk);
                Ok(Pumped { read, items })
            },
            PortRead::TimedOut => {
                let items: Vec<PumpItem> = Vec::new();
                assert(items@.map_values(|item: PumpItem| item@) =~= seq![]);
                Ok(Pumped { read: false, items })
            },
            PortRead::Failed(e) => Err(e),
        }
    }

    /// What a reader holds is a run that has not ended.
    pub proof fn holds_an_open_run(&self)
        requires
            self.wf(),
        ensures
            open_run(self.held()),
    {
    }
}

/// The first zero is where it says, and nothing in front of it is zero.
pub proof fn first_zero_is_first(input: Seq<u8>)
    ensures
        0 <= first_zero(input) <= input.len(),
        first_zero(input) < input.len() ==> input[first_zero(input)] == 0,
        forall|i: int| 0 <= i < first_zero(input) ==> #[trigger] input[i] != 0,
    decreases input.len(),
{
    if input.len() > 0 && input[0] != 0 {
        let rest = input.drop_first();
        first_zero_is_first(rest);
        assert forall|i: int| 0 <= i < first_zero(input) implies #[trigger] input[i] != 0 by {
            if i > 0 {
                assert(rest[i - 1] == input[i]);
            }
        }
    }
}

/// A warning's beginning: where it comes from, by name where the link has one.
pub open spec fn warn_prefix(name: Option<Seq<char>>) -> Seq<char> {
    match name {
        Some(label) => "WARN [demux] "@ + label + ": "@,
        None => "WARN [demux]: "@,
    }
}

/// The two lines that warn of bytes that were discarded: why, and the bytes.
pub open spec fn discard_lines(name: Option<Seq<char>>, overflow: bool, bytes: Seq<u8>) -> (
    Seq<char>,
    Seq<char>,
) {
    (
        warn_prefix(name) + if overflow {
            "accumulator overflowed; resetting"@
        } else {
            "corrupt frame; skipping (COBS resync)"@
        },
        warn_prefix(name) + "discarded "@ + text::decimal(bytes.len()) + " undecoded byte(s):\n"@
            + dump::dump_text(bytes),
    )
}

impl FrameReader {
    fn push_prefix(&self, out: &mut String)
        ensures
            final(out)@ == old(out)@ + warn_prefix(self.name()),
    {
        match &self.label {
            Some(label) => {
                push_text(out, "WARN [demux] ");
                push_text(out, label.as_str());
                push_text(out, ": ");
            },
            None => push_text(out, "WARN [demux]: "),
        }
        assert(out@ =~= old(out)@ + warn_prefix(self.name()));
    }

    /// The two lines that warn of `bytes` that were discarded: a run that outgrew
    /// the accumulator, or one that is no frame.
    pub fn discard_warning(&self, overflow: bool, bytes: &[u8]) -> (r: (String, String))
        ensures
            (r.0@, r.1@) == discard_lines(self.name(), overflow, bytes@),
    {
        let mut why = String::new();
        self.push_prefix(&mut why);
        if overflow {
            push_text(&mut why, "accumulator overflowed; resetting");
        } else {
            push_text(&mut why, "corrupt frame; skipping (COBS resync)");
        }
        let mut what = String::new();
        self.push_prefix(&mut what);
        push_text(&mut what, "discarded ");
        push_decimal(&mut what, bytes.len() as u64);
        push_text(&mut what, " undecoded byte(s):\n");
        let shown = render_dump(bytes);
        push_text(&mut what, shown.as_str());
        assert(why@ =~= discard_lines(self.name(), overflow, bytes@).0);
        assert(what@ =~= discard_lines(self.name(), overflow, bytes@).1);
        (why, what)
    }
}

impl FrameReader {
    /// What becomes of `item`, given what its run decodes to: a well-stuffed run that
    /// decodes is a frame, and anything else is shown.
    pub fn deliver(&self, item: PumpItem, decoded: Option<DeviceFrame>) -> (r: Delivery)
        ensures
            match (item@, decoded) {
                (ItemView::Frame(_), Some(frame)) => r == Delivery::Frame(frame),
                _ => r matches Delivery::Discarded { why, dump } && (why@, dump@)
                    == discard_lines(self.name(), item@ is OverFull, item_bytes(item@)),
            },
    {
        let (overflow, bytes) = match item {
            PumpItem::Frame(bytes) => match decoded {
                Some(frame) => {
                    return Delivery::Frame(frame);
                },
                None => (false, bytes),
            },
            PumpItem::Corrupt(bytes) => (false, bytes),
            PumpItem::OverFull(bytes) => (true, bytes),
        };
        let (why, dump) = self.discard_warning(overflow, bytes.as_slice());
        Delivery::Discarded { why, dump }
    }
}

/// No run outgrew the accumulator.
pub open spec fn nothing_overflowed(items: Seq<ItemView>) -> bool {
    forall|i: int| 0 <= i < items.len() ==> !(#[trigger] items[i] is OverFull)
}

/// The bytes of an item.
pub open spec fn item_bytes(item: ItemView) -> Seq<u8> {
    match item {
        ItemView::Frame(bytes) => bytes,
        ItemView::Corrupt(bytes) => bytes,
        ItemView::OverFull(bytes) => bytes,
    }
}

/// The bytes of all items, one behind the other.
pub open spec fn all_bytes(items: Seq<ItemView>) -> Seq<u8>
    decreases items.len(),
{
    if items.len() == 0 {
        seq![]
    } else {
        item_bytes(items[0]) + all_bytes(items.drop_first())
    }
}

/// What is held after any input is a run that has not ended.
pub proof fn what_is_held_has_not_ended(held: Seq<u8>, input: Seq<u8>)
    requires
        open_run(held),
    ensures
        open_run(demux(held, input).1),
    decreases input.len(), held.len(),
{
    first_zero_is_first(input);
    if input.len() > 0 {
        let run = held + input.take(run_len(input));
        if first_zero(input) < input.len() {
            what_is_held_has_not_ended(seq![], input.skip(run_len(input)));
        } else if run.len() > 1024 {
            what_is_held_has_not_ended(seq![], input.skip(1024 - held.len()));
        }
    }
}

/// Where no run outgrows the accumulator every byte comes out again, in order: in
/// a frame, in a discarded run, or held for what follows.
pub proof fn no_byte_is_lost(held: Seq<u8>, input: Seq<u8>)
    requires
        open_run(held),
        nothing_overflowed(demux(held, input).0),
    ensures
        all_bytes(demux(held, input).0) + demux(held, input).1 == held + input,
    decreases input.len(), held.len(),
{
    first_zero_is_first(input);
    let (items, left) = demux(held, input);
    if input.len() == 0 {
        assert(all_bytes(items) + left =~= held + input);
    } else {
        let n = run_len(input);
        let run = held + input.take(n);
        if first_zero(input) < input.len() {
            let rest = input.skip(n);
            let (more, _) = demux(seq![], rest);
            assert(items[0] == judged(run));
            assert(items.drop_first() =~= more);
            assert forall|i: int| 0 <= i < more.len() implies !(#[trigger] more[i] is OverFull) by {
                assert(more[i] == items[i + 1]);
            }
            no_byte_is_lost(seq![], rest);
            assert(item_bytes(items[0]) == run);
            assert(seq![] + rest =~= rest);
            assert(all_bytes(items) + left =~= run + (all_bytes(more) + left));
            assert(run + rest =~= held + input);
        } else if run.len() > 1024 {
            assert(items[0] is OverFull);
        } else {
            assert(input.take(n) =~= input);
            assert(all_bytes(items) + left =~= held + input);
        }
    }
}

/// A zero always resynchronises: nothing is held behind input that ends in one.
pub proof fn a_zero_resynchronises(held: Seq<u8>, input: Seq<u8>)
    requires
        open_run(held),
        input.len() > 0,
        input.last() == 0,
    ensures
        demux(held, input).1 == Seq::<u8>::empty(),
    decreases input.len(),
{
    first_zero_is_first(input);
    assert(input[input.len() - 1] == 0);
    assert(first_zero(input) < input.len());
    let rest = input.skip(run_len(input));
    assert(demux(held, input).1 == demux(seq![], rest).1);
    if rest.len() > 0 {
        assert(rest.last() == input.last());
        a_zero_resynchronises(seq![], rest);
    }
}

/// How the link cuts its bytes into reads makes no difference, as long as no run
/// outgrew the accumulator in the first of them.
pub proof fn reads_can_be_cut_anywhere(held: Seq<u8>, first: Seq<u8>, then: Seq<u8>)
    requires
        open_run(held),
        nothing_overflowed(demux(held, first).0),
    ensures
        ({
            let (items, left) = demux(held, first);
            let (more, end) = demux(left, then);
            demux(held, first + then) == (items + more, end)
        }),
    decreases first.len(),
{
    let whole = first + then;
    let (items, left) = demux(held, first);
    let (more, end) = demux(left, then);
    first_zero_is_first(first);
    first_zero_is_first(then);
    first_zero_is_first(whole);
    if first.len() == 0 {
        assert(whole =~= then);
        assert(items + more =~= more);
    } else if first_zero(first) < first.len() {
        let n = run_len(first);
        let run = held + first.take(n);
        let rest = first.skip(n);
        assert(whole[first_zero(first)] == 0);
        assert(first_zero(whole) == first_zero(first)) by {
            if first_zero(whole) < first_zero(first) {
                assert(whole[first_zero(whole)] == first[first_zero(whole)]);
            }
        }
        assert(whole.take(n) =~= first.take(n));
        assert(whole.skip(n) =~= rest + then);
        let (rest_items, rest_left) = demux(seq![], rest);
        assert(items =~= seq![judged(run)] + rest_items);
        assert forall|i: int| 0 <= i < rest_items.len() implies !(#[trigger] rest_items[i]
            is OverFull) by {
            assert(rest_items[i] == items[i + 1]);
        }
        reads_can_be_cut_anywhere(seq![], rest, then);
        assert(items + more =~= seq![judged(run)] + (rest_items + more));
    } else {
        assert(first.take(run_len(first)) =~= first);
        let run = held + first;
        if run.len() > 1024 {
            assert(items[0] is OverFull);
        }
        assert(left == run);
        assert(items =~= seq![]);
        assert(items + more =~= more);
        assert(whole.skip(first.len() as int) =~= then);
        assert forall|i: int| 0 <= i < first.len() implies #[trigger] whole[i] != 0 by {
            assert(whole[i] == first[i]);
        }
        if then.len() == 0 {
            assert(whole =~= first);
        } else {
            if first_zero(then) < then.len() {
                assert(whole[first.len() + first_zero(then)] == 0);
                assert(first_zero(whole) == first.len() + first_zero(then)) by {
                    let z = first_zero(whole);
                    if z < first.len() + first_zero(then) {
                        assert(whole[z] == 0);
                        assert(whole[z] == then[z - first.len()]);
                    }
                }
            } else {
                assert(first_zero(whole) == whole.len()) by {
                    let z = first_zero(whole);
                    if z < whole.len() {
                        assert(whole[z] == 0);
                        assert(whole[z] == then[z - first.len()]);
                    }
                }
            }
            let n = run_len(then);
            assert(run_len(whole) == first.len() + n);
            assert(held + whole.take(first.len() + n) =~= run + then.take(n));
            assert(whole.skip(first.len() + n) =~= then.skip(n));
            if run.len() + n > 1024 {
                assert(whole.skip(1024 - held.len()) =~= then.skip(1024 - run.len()));
            }
        }
    }
}

/// What comes off the link over several reads: the items in order, and what is then
/// held.
pub open spec fn demux_all(held: Seq<u8>, reads: Seq<Seq<u8>>) -> (Seq<ItemView>, Seq<u8>)
    decreases reads.len(),
{
    if reads.len() == 0 {
        (seq![], held)
    } else {
        let (items, left) = demux(held, reads[0]);
        let (more, end) = demux_all(left, reads.drop_first());
        (items + more, end)
    }
}

/// Byte strings, one behind the other.
pub open spec fn joined_bytes(parts: Seq<Seq<u8>>) -> Seq<u8>
    decreases parts.len(),
{
    if parts.len() == 0 {
        seq![]
    } else {
        parts[0] + joined_bytes(parts.drop_first())
    }
}

/// A run that ended and fits the accumulator: its only zero is its last byte.
pub open spec fn is_short_run(run: Seq<u8>) -> bool {
    &&& 0 < run.len() <= 1024
    &&& run.last() == 0
    &&& forall|i: int| 0 <= i < run.len() - 1 ==> #[trigger] run[i] != 0
}

/// The frames among `items`, in order, given what a run decodes to.
pub open spec fn frames_among(
    items: Seq<ItemView>,
    decode: spec_fn(Seq<u8>) -> Option<DeviceFrame>,
) -> Seq<DeviceFrame>
    decreases items.len(),
{
    if items.len() == 0 {
        seq![]
    } else {
        let before = frames_among(items.drop_last(), decode);
        match items.last() {
            ItemView::Frame(run) => match decode(run) {
                Some(frame) => before.push(frame),
                None => before,
            },
            _ => before,
        }
    }
}

/// The frames among `runs`, in order: of those that are well stuffed, what they decode
/// to.
pub open spec fn frames_of_runs(
    runs: Seq<Seq<u8>>,
    decode: spec_fn(Seq<u8>) -> Option<DeviceFrame>,
) -> Seq<DeviceFrame>
    decreases runs.len(),
{
    if runs.len() == 0 {
        seq![]
    } else {
        let before = frames_of_runs(runs.drop_last(), decode);
        let run = runs.last();
        match decode(run) {
            Some(frame) if well_stuffed(run.drop_last()) => before.push(frame),
            _ => before,
        }
    }
}

/// Bytes whose runs all fit still fit when the link stops short of their end.
proof fn a_prefix_fits_too(held: Seq<u8>, first: Seq<u8>, then: Seq<u8>)
    requires
        open_run(held),
        nothing_overflowed(demux(held, first + then).0),
    ensures
        nothing_overflowed(demux(held, first).0),
    decreases first.len(),
{
    let whole = first + then;
    first_zero_is_first(first);
    first_zero_is_first(whole);
    if first.len() > 0 {
        let n = run_len(first);
        let run = held + first.take(n);
        let items = demux(held, whole).0;
        if first_zero(first) < first.len() {
            let rest = first.skip(n);
            assert(whole[first_zero(first)] == 0);
            assert(first_zero(whole) == first_zero(first)) by {
                if first_zero(whole) < first_zero(first) {
                    assert(whole[first_zero(whole)] == first[first_zero(whole)]);
                }
            }
            assert(whole.take(n) =~= first.take(n));
            assert(whole.skip(n) =~= rest + then);
            let more = demux(seq![], rest + then).0;
            assert(items =~= seq![judged(run)] + more);
            assert forall|i: int| 0 <= i < more.len() implies !(#[trigger] more[i] is OverFull) by {
                assert(more[i] == items[i + 1]);
            }
            a_prefix_fits_too(seq![], rest, then);
            let rest_items = demux(seq![], rest).0;
            let first_items = demux(held, first).0;
            assert(first_items =~= seq![judged(run)] + rest_items);
            assert(items[0] == judged(run));
            assert forall|i: int| 0 <= i < first_items.len() implies !(#[trigger] first_items[i]
                is OverFull) by {
                if i > 0 {
                    assert(first_items[i] == rest_items[i - 1]);
                }
            }
        } else if run.len() > 1024 {
            let m = run_len(whole);
            assert(m >= n) by {
                if first_zero(whole) < first.len() {
                    assert(whole[first_zero(whole)] == first[first_zero(whole)]);
                }
            }
            assert((held + whole.take(m)).len() > 1024);
            assert(items[0] is OverFull);
        }
    }
}

/// However the link cuts its bytes into reads, the same comes off it as if they had
/// come in one, as long as no run outgrows the accumulator.
pub proof fn any_cut_gives_the_same(held: Seq<u8>, reads: Seq<Seq<u8>>)
    requires
        open_run(held),
        nothing_overflowed(demux(held, joined_bytes(reads)).0),
    ensures
        demux_all(held, reads) == demux(held, joined_bytes(reads)),
    decreases reads.len(),
{
    if reads.len() > 0 {
        let first = reads[0];
        let then = joined_bytes(reads.drop_first());
        let (items, left) = demux(held, first);
        a_prefix_fits_too(held, first, then);
        reads_can_be_cut_anywhere(held, first, then);
        what_is_held_has_not_ended(held, first);
        let (more, _) = demux(left, then);
        let all = demux(held, first + then).0;
        assert(all == items + more);
        assert forall|i: int| 0 <= i < more.len() implies !(#[trigger] more[i] is OverFull) by {
            assert(more[i] == all[items.len() + i]);
        }
        any_cut_gives_the_same(left, reads.drop_first());
    }
}

/// A stream of runs that fit comes out run by run.
pub proof fn runs_come_out_one_by_one(runs: Seq<Seq<u8>>)
    requires
        forall|i: int| 0 <= i < runs.len() ==> is_short_run(#[trigger] runs[i]),
    ensures
        demux(seq![], joined_bytes(runs)) == (
            runs.map_values(|run: Seq<u8>| judged(run)),
            Seq::<u8>::empty(),
        ),
        nothing_overflowed(demux(seq![], joined_bytes(runs)).0),
    decreases runs.len(),
{
    let judge = |run: Seq<u8>| judged(run);
    let input = joined_bytes(runs);
    if runs.len() == 0 {
        assert(runs.map_values(judge) =~= seq![]);
    } else {
        let run = runs[0];
        let tail = runs.drop_first();
        let rest = joined_bytes(tail);
        assert(is_short_run(run));
        assert forall|i: int| 0 <= i < tail.len() implies is_short_run(#[trigger] tail[i]) by {
            assert(tail[i] == runs[i + 1]);
        }
        runs_come_out_one_by_one(tail);
        first_zero_is_first(input);
        let last = run.len() - 1;
        assert(input[last] == 0);
        assert(first_zero(input) == last) by {
            if first_zero(input) < last {
                assert(input[first_zero(input)] == run[first_zero(input)]);
            }
        }
        assert(input.take(run_len(input)) =~= run);
        assert(seq![] + input.take(run_len(input)) =~= run);
        assert(input.skip(run_len(input)) =~= rest);
        assert(runs.map_values(judge) =~= seq![judged(run)] + tail.map_values(judge));
        let items = demux(seq![], input).0;
        assert forall|i: int| 0 <= i < items.len() implies !(#[trigger] items[i] is OverFull) by {
            if i > 0 {
                assert(items[i] == demux(seq![], rest).0[i - 1]);
            }
        }
    }
}

proof fn judged_runs_hold_their_frames(
    runs: Seq<Seq<u8>>,
    decode: spec_fn(Seq<u8>) -> Option<DeviceFrame>,
)
    requires
        forall|i: int| 0 <= i < runs.len() ==> is_short_run(#[trigger] runs[i]),
    ensures
        frames_among(runs.map_values(|run: Seq<u8>| judged(run)), decode) == frames_of_runs(
            runs,
            decode,
        ),
    decreases runs.len(),
{
    let judge = |run: Seq<u8>| judged(run);
    if runs.len() > 0 {
        let front = runs.drop_last();
        assert forall|i: int| 0 <= i < front.len() implies is_short_run(#[trigger] front[i]) by {
            assert(front[i] == runs[i]);
        }
        judged_runs_hold_their_frames(front, decode);
        assert(is_short_run(runs[runs.len() - 1]));
        assert(runs.map_values(judge).drop_last() =~= front.map_values(judge));
        assert(runs.map_values(judge).last() == judged(runs.last()));
    }
}

/// Over a stream of runs that fit, exactly the frames among them are delivered, each
/// once and in order, however the link cuts the stream into reads; every other run is
/// discarded on its own, and nothing is left behind.
pub proof fn every_frame_is_delivered_once(
    reads: Seq<Seq<u8>>,
    runs: Seq<Seq<u8>>,
    decode: spec_fn(Seq<u8>) -> Option<DeviceFrame>,
)
    requires
        joined_bytes(reads) == joined_bytes(runs),
        forall|i: int| 0 <= i < runs.len() ==> is_short_run(#[trigger] runs[i]),
    ensures
        demux_all(seq![], reads).0 == runs.map_values(|run: Seq<u8>| judged(run)),
        demux_all(seq![], reads).1 == Seq::<u8>::empty(),
        frames_among(demux_all(seq![], reads).0, decode) == frames_of_runs(runs, decode),
{
    runs_come_out_one_by_one(runs);
    any_cut_gives_the_same(seq![], reads);
    judged_runs_hold_their_frames(runs, decode);
}

/// A run that ended is judged by its length and its stuffing: one over 1024 bytes does
/// not fit and shows its first 1024; any other is a frame where it is well stuffed.
pub proof fn a_run_is_judged_by_length_and_stuffing(run: Seq<u8>)
    requires
        run.len() > 0,
    ensures
        run.len() > 1024 ==> judged(run) == ItemView::OverFull(run.take(1024)),
        run.len() <= 1024 && well_stuffed(run.take(run.len() - 1)) ==> judged(run)
            == ItemView::Frame(run),
        run.len() <= 1024 && !well_stuffed(run.take(run.len() - 1)) ==> judged(run)
            == ItemView::Corrupt(run),
{
    assert(run.drop_last() =~= run.take(run.len() - 1));
}

/// Stuffing is blocks, each led by its own length: nothing is well stuffed, a block in
/// front of well-stuffed bytes keeps them so, and a length that is none or reaches past
/// the end spoils them.
pub proof fn stuffing_is_block_after_block(bytes: Seq<u8>, block: Seq<u8>)
    requires
        0 < block.len() <= 255,
        block[0] == block.len(),
    ensures
        well_stuffed(Seq::<u8>::empty()),
        well_stuffed(block + bytes) <==> well_stuffed(bytes),
        bytes.len() > 0 && (bytes[0] == 0 || bytes[0] > bytes.len()) ==> !well_stuffed(bytes),
{
    assert((block + bytes).skip(block.len() as int) =~= bytes);
    assert((block + bytes)[0] == block[0]);
}

/// A run that outgrows the accumulator is handed out by its first 1024 bytes. Where it
/// ends in what arrived, the next run starts behind its zero; where it does not, the
/// bytes behind those 1024 are taken as a new run.
pub proof fn an_overfull_run_is_cut_off(held: Seq<u8>, input: Seq<u8>, end: int)
    requires
        held.len() <= 1024,
        0 <= end <= input.len(),
        forall|i: int| 0 <= i < end ==> #[trigger] input[i] != 0,
        end < input.len() ==> input[end] == 0,
        held.len() + end + (if end < input.len() {
            1int
        } else {
            0
        }) > 1024,
    ensures
        ({
            let (items, left) = demux(held, input);
            let rest = if end < input.len() {
                input.skip(end + 1)
            } else {
                input.skip(1024 - held.len())
            };
            &&& items.len() > 0
            &&& items[0] == ItemView::OverFull((held + input).take(1024))
            &&& (items.skip(1), left) == demux(seq![], rest)
        }),
{
    first_zero_is_first(input);
    let z = first_zero(input);
    if z < end {
        assert(input[z] != 0);
    }
    if end < z {
        assert(input[end] != 0);
    }
    let (items, left) = demux(held, input);
    let run = held + input.take(run_len(input));
    assert(run.take(1024) =~= (held + input).take(1024));
    let rest = if end < input.len() {
        input.skip(end + 1)
    } else {
        input.skip(1024 - held.len())
    };
    let (more, _) = demux(seq![], rest);
    assert(items =~= seq![ItemView::OverFull((held + input).take(1024))] + more);
    assert(items.skip(1) =~= more);
}

/// A warning names the link where it has a name, says why the bytes were discarded, and
/// shows all of them.
pub proof fn a_warning_names_link_reason_and_bytes(name: Seq<char>, bytes: Seq<u8>)
    ensures
        discard_lines(Some(name), true, bytes).0 == "WARN [demux] "@ + name + ": "@
            + "accumulator overflowed; resetting"@,
        discard_lines(Some(name), false, bytes).0 == "WARN [demux] "@ + name + ": "@
            + "corrupt frame; skipping (COBS resync)"@,
        discard_lines(None, true, bytes).0 == "WARN [demux]: "@
            + "accumulator overflowed; resetting"@,
        discard_lines(None, false, bytes).0 == "WARN [demux]: "@
            + "corrupt frame; skipping (COBS resync)"@,
        forall|overflow: bool|
            (#[trigger] discard_lines(None, overflow, bytes)).1 == "WARN [demux]: "@ + "discarded "@
                + text::decimal(bytes.len()) + " undecoded byte(s):\n"@ + dump::dump_text(bytes),
        forall|overflow: bool|
            (#[trigger] discard_lines(Some(name), overflow, bytes)).1 == "WARN [demux] "@ + name
                + ": "@ + "discarded "@ + text::decimal(bytes.len()) + " undecoded byte(s):\n"@
                + dump::dump_text(bytes),
{
}

/// What comes off a link is handed out byte for byte, and a read that brought nothing
/// brought no bytes.
pub proof fn bytes_are_handed_out_as_they_are<'a>(
    bytes: Vec<u8>,
    read: &'a [u8],
    label: String,
    e: u8,
)
    ensures
        PumpItem::Frame(bytes)@ == ItemView::Frame(bytes@),
        PumpItem::Corrupt(bytes)@ == ItemView::Corrupt(bytes@),
        PumpItem::OverFull(bytes)@ == ItemView::OverFull(bytes@),
        bytes_of(PortRead::<'a, u8>::Bytes(read)) == read@,
        bytes_of(PortRead::<'a, u8>::TimedOut) == Seq::<u8>::empty(),
        bytes_of(PortRead::<'a, u8>::Failed(e)) == Seq::<u8>::empty(),
        label_text(Some(label)) == Some(label@),
        label_text(None) == None::<Seq<char>>,
{
}

} // verus!
