//! One pod out of those attached.
//!
//! A port that was named decides; else a serial number that was named, among pods
//! that run app firmware; else the only such pod. A pod in its bootloader stands in
//! the way only where it is the one named or the only one there is.

use vstd::prelude::*;

use crate::text::{self, push_text, same_text};
use crate::transport::ports::{self, enumerate_pods, ListedPort, PodMode, PodPort};

verus! {

/// Why no pod was selected.
#[derive(Debug, PartialEq, Eq)]
pub enum SelErr {
    /// No pod is attached.
    NonePresent,
    /// Every pod attached is in its bootloader.
    OnlyDfu,
    /// The pod named is in its bootloader.
    SelectedDfu,
    /// Several pods fit; their identities.
    Ambiguous(Vec<String>),
    /// No pod is the one named; the identities of those attached.
    NotFound(Vec<String>),
}

/// A [`SelErr`] as a mathematical value.
#[verifier::ext_equal]
pub enum SelErrView {
    /// No pod is attached.
    NonePresent,
    /// Every pod attached is in its bootloader.
    OnlyDfu,
    /// The pod named is in its bootloader.
    SelectedDfu,
    /// Several pods fit.
    Ambiguous(Seq<Seq<char>>),
    /// No pod is the one named.
    NotFound(Seq<Seq<char>>),
}

impl View for SelErr {
    type V = SelErrView;

    open spec fn view(&self) -> SelErrView {
        match self {
            SelErr::NonePresent => SelErrView::NonePresent,
            SelErr::OnlyDfu => SelErrView::OnlyDfu,
            SelErr::SelectedDfu => SelErrView::SelectedDfu,
            SelErr::Ambiguous(ids) => SelErrView::Ambiguous(text::texts(ids@)),
            SelErr::NotFound(ids) => SelErrView::NotFound(text::texts(ids@)),
        }
    }
}

/// A text that may be absent, as a mathematical value.
pub open spec fn named(text: Option<&str>) -> Option<Seq<char>> {
    match text {
        Some(text) => Some(text@),
        None => None,
    }
}

/// What operators call each of `pods`.
pub open spec fn identities(pods: Seq<PodPort>) -> Seq<Seq<char>> {
    pods.map_values(|p: PodPort| ports::identity_text(p))
}

/// The first of `pods` on the port `path`.
pub open spec fn on_port(pods: Seq<PodPort>, path: Seq<char>) -> Option<PodPort>
    decreases pods.len(),
{
    if pods.len() == 0 {
        None
    } else {
        match on_port(pods.drop_last(), path) {
            Some(pod) => Some(pod),
            None => if pods.last().port_name@ == path {
                Some(pods.last())
            } else {
                None
            },
        }
    }
}

/// `pod` runs app firmware, and has the serial number where one is named.
pub open spec fn is_candidate(pod: PodPort, serial: Option<Seq<char>>) -> bool {
    &&& pod.mode == PodMode::App
    &&& match serial {
        Some(wanted) => match pod.serial_number {
            Some(sn) => sn@ == wanted,
            None => false,
        },
        None => true,
    }
}

/// Those of `pods` that run app firmware, and have the serial number where one is
/// named, in their order.
pub open spec fn candidates(pods: Seq<PodPort>, serial: Option<Seq<char>>) -> Seq<PodPort>
    decreases pods.len(),
{
    if pods.len() == 0 {
        seq![]
    } else {
        let rest = candidates(pods.drop_last(), serial);
        if is_candidate(pods.last(), serial) {
            rest.push(pods.last())
        } else {
            rest
        }
    }
}

/// The pod that the operator means.
pub open spec fn selection(
    pods: Seq<PodPort>,
    port: Option<Seq<char>>,
    serial: Option<Seq<char>>,
) -> Result<PodPort, SelErrView> {
    match port {
        Some(path) => match on_port(pods, path) {
            Some(pod) if pod.mode == PodMode::App => Ok(pod),
            Some(_) => Err(SelErrView::SelectedDfu),
            None => Err(SelErrView::NotFound(identities(pods))),
        },
        None => {
            let fitting = candidates(pods, serial);
            if fitting.len() == 1 {
                Ok(fitting[0])
            } else if fitting.len() > 1 {
                Err(SelErrView::Ambiguous(identities(fitting)))
            } else if serial is Some {
                Err(SelErrView::NotFound(identities(pods)))
            } else if pods.len() > 0 {
                Err(SelErrView::OnlyDfu)
            } else {
                Err(SelErrView::NonePresent)
            }
        },
    }
}

/// What operators call each of `pods`.
fn identities_of(pods: &[PodPort]) -> (r: Vec<String>)
    ensures
        text::texts(r@) == identities(pods@),
{
    let mut out: Vec<String> = Vec::new();
    let mut i: usize = 0;
    assert(text::texts(out@) =~= identities(pods@.take(0)));
    while i < pods.len()
        invariant
            i <= pods.len(),
            text::texts(out@) == identities(pods@.take(i as int)),
        decreases pods.len() - i,
    {
        let ghost before = out@;
        out.push(pods[i].identity());
        proof {
            assert(text::texts(out@) =~= text::texts(before).push(out@.last()@));
            assert(pods@.take(i + 1) =~= pods@.take(i as int).push(pods@[i as int]));
            assert(identities(pods@.take(i + 1)) =~= identities(pods@.take(i as int)).push(
                ports::identity_text(pods@[i as int]),
            ));
        }
        i = i + 1;
    }
    assert(pods@.take(i as int) =~= pods@);
    out
}

/// Where the first of `pods` on the port `path` stands.
fn find_port(pods: &[PodPort], path: &str) -> (r: Option<usize>)
    ensures
        match on_port(pods@, path@) {
            Some(pod) => r matches Some(at) && at < pods.len() && pods@[at as int] == pod,
            None => r is None,
        },
{
    let mut i: usize = 0;
    while i < pods.len()
        invariant
            i <= pods.len(),
            on_port(pods@.take(i as int), path@) is None,
        decreases pods.len() - i,
    {
        let ghost longer = pods@.take(i + 1);
        proof {
            assert(longer.drop_last() =~= pods@.take(i as int));
            assert(longer.last() == pods@[i as int]);
        }
        if same_text(pods[i].port_name.as_str(), path) {
            proof {
                first_found_stays(pods@, i + 1, path@);
            }
            return Some(i);
        }
        i = i + 1;
    }
    assert(pods@.take(i as int) =~= pods@);
    None
}

proof fn first_found_stays(pods: Seq<PodPort>, end: int, path: Seq<char>)
    requires
        0 <= end <= pods.len(),
        on_port(pods.take(end), path) is Some,
    ensures
        on_port(pods, path) == on_port(pods.take(end), path),
    decreases pods.len(),
{
    if end == pods.len() {
        assert(pods.take(end) =~= pods);
    } else {
        assert(pods.drop_last().take(end) =~= pods.take(end));
        first_found_stays(pods.drop_last(), end, path);
    }
}

fn fits(pod: &PodPort, serial: Option<&str>) -> (r: bool)
    ensures
        r == is_candidate(*pod, named(serial)),
{
    if pod.mode != PodMode::App {
        return false;
    }
    match serial {
        Some(wanted) => match &pod.serial_number {
            Some(sn) => same_text(sn.as_str(), wanted),
            None => false,
        },
        None => true,
    }
}

/// The pods that fit: where the first stands, and what operators call them.
fn fitting_pods(pods: &[PodPort], serial: Option<&str>) -> (r: (usize, Vec<String>))
    ensures
        ({
            let fitting = candidates(pods@, named(serial));
            &&& text::texts(r.1@) == identities(fitting)
            &&& fitting.len() > 0 ==> r.0 < pods.len() && pods@[r.0 as int] == fitting[0]
        }),
{
    let mut first: usize = 0;
    let mut ids: Vec<String> = Vec::new();
    let mut i: usize = 0;
    let ghost wanted = named(serial);
    assert(text::texts(ids@) =~= identities(candidates(pods@.take(0), wanted)));
    while i < pods.len()
        invariant
            i <= pods.len(),
            wanted == named(serial),
            text::texts(ids@) == identities(candidates(pods@.take(i as int), wanted)),
            candidates(pods@.take(i as int), wanted).len() > 0 ==> first < pods.len()
                && pods@[first as int] == candidates(pods@.take(i as int), wanted)[0],
        decreases pods.len() - i,
    {
        let ghost before = candidates(pods@.take(i as int), wanted);
        let ghost ids_before = ids@;
        proof {
            let longer = pods@.take(i + 1);
            assert(longer.drop_last() =~= pods@.take(i as int));
            assert(longer.last() == pods@[i as int]);
            assert(text::texts(ids@).len() == identities(before).len());
        }
        if fits(&pods[i], serial) {
            if ids.len() == 0 {
                first = i;
            }
            ids.push(pods[i].identity());
            proof {
                let after = candidates(pods@.take(i + 1), wanted);
                assert(after == before.push(pods@[i as int]));
                assert(text::texts(ids@) =~= text::texts(ids_before).push(ids@.last()@));
                assert(identities(after) =~= identities(before).push(
                    ports::identity_text(pods@[i as int]),
                ));
            }
        }
        i = i + 1;
    }
    assert(pods@.take(i as int) =~= pods@);
    (first, ids)
}

/// The pod that the operator means, out of those attached.
pub fn select<'a>(pods: &'a [PodPort], port: Option<&str>, serial: Option<&str>) -> (r: Result<
    &'a PodPort,
    SelErr,
>)
    ensures
        match selection(pods@, named(port), named(serial)) {
            Ok(pod) => r matches Ok(found) && *found == pod,
            Err(e) => r matches Err(found) && found@ == e,
        },
{
    if let Some(path) = port {
        return match find_port(pods, path) {
            Some(at) => if pods[at].mode == PodMode::App {
                Ok(&pods[at])
            } else {
                Err(SelErr::SelectedDfu)
            },
            None => Err(SelErr::NotFound(identities_of(pods))),
        };
    }
    let (first, ids) = fitting_pods(pods, serial);
    proof {
        assert(text::texts(ids@).len() == identities(
            candidates(pods@, named(serial)),
        ).len());
    }
    if ids.len() == 1 {
        return Ok(&pods[first]);
    }
    if ids.len() > 1 {
        return Err(SelErr::Ambiguous(ids));
    }
    if serial.is_some() {
        Err(SelErr::NotFound(identities_of(pods)))
    } else if pods.len() > 0 {
        Err(SelErr::OnlyDfu)
    } else {
        Err(SelErr::NonePresent)
    }
}

/// The refusal of a selection, as operators read it.
pub open spec fn selection_line(e: SelErrView) -> Seq<char> {
    match e {
        SelErrView::NonePresent =>
        "error: no respeaker pod found; expected VID:PID 0x303a:0x1001; check device-access permissions (udev rule for VID 0x303a)"@,
        SelErrView::OnlyDfu | SelErrView::SelectedDfu =>
        "error: pod is in DFU/bootloader mode; cannot provision; boot the app firmware first"@,
        SelErrView::Ambiguous(ids) => "error: multiple pods found: "@ + text::joined(ids)
            + "; disambiguate with --port or --serial"@,
        SelErrView::NotFound(ids) => "error: requested device not found; attached: "@ + if ids.len()
            == 0 {
            "none"@
        } else {
            text::joined(ids)
        },
    }
}

impl SelErr {
    /// The refusal as operators read it.
    pub fn text(&self) -> (r: String)
        ensures
            r@ == selection_line(self@),
    {
        let mut out = String::new();
        match self {
            SelErr::NonePresent => {
                push_text(
                    &mut out,
                    "error: no respeaker pod found; expected VID:PID 0x303a:0x1001; check device-access permissions (udev rule for VID 0x303a)",
                );
            },
            SelErr::OnlyDfu | SelErr::SelectedDfu => {
                push_text(
                    &mut out,
                    "error: pod is in DFU/bootloader mode; cannot provision; boot the app firmware first",
                );
            },
            SelErr::Ambiguous(ids) => {
                push_text(&mut out, "error: multiple pods found: ");
                text::push_joined(&mut out, ids);
                push_text(&mut out, "; disambiguate with --port or --serial");
            },
            SelErr::NotFound(ids) => {
                push_text(&mut out, "error: requested device not found; attached: ");
                if ids.len() == 0 {
                    push_text(&mut out, "none");
                } else {
                    text::push_joined(&mut out, ids);
                }
            },
        }
        assert(out@ =~= selection_line(self@));
        out
    }
}

/// The pod to open.
#[derive(Debug, PartialEq, Eq)]
pub struct Target {
    /// What operators call it.
    pub identity: String,
    /// Its serial port.
    pub port_name: String,
}

/// What the host said of its serial ports, as mathematical values.
pub open spec fn listed_view(listed: Result<Vec<ListedPort>, String>) -> Result<
    Seq<ListedPort>,
    Seq<char>,
> {
    match listed {
        Ok(ports) => Ok(ports@),
        Err(detail) => Err(detail@),
    }
}

/// The pod to open, or the line that says why there is none.
pub open spec fn target_of(
    listed: Result<Seq<ListedPort>, Seq<char>>,
    port: Option<Seq<char>>,
    serial: Option<Seq<char>>,
) -> Result<PodPort, Seq<char>> {
    match listed {
        Ok(found) => match selection(ports::pods_among(found), port, serial) {
            Ok(pod) => Ok(pod),
            Err(e) => Err(selection_line(e)),
        },
        Err(detail) => Err("error: could not enumerate serial ports: "@ + detail),
    }
}

/// Selects the pod to open among the serial ports that the host lists, or says what
/// to print before giving up. `listed` is the list, or why there is none.
pub fn open_selected(
    listed: &Result<Vec<ListedPort>, String>,
    port: Option<&str>,
    serial: Option<&str>,
) -> (r: Result<Target, String>)
    ensures
        match target_of(listed_view(*listed), named(port), named(serial)) {
            Ok(pod) => r matches Ok(target) && target.identity@ == ports::identity_text(pod)
                && target.port_name@ == pod.port_name@,
            Err(line) => r matches Err(found) && found@ == line,
        },
{
    match listed {
        Ok(found) => {
            let pods = enumerate_pods(found.as_slice());
            match select(pods.as_slice(), port, serial) {
                Ok(pod) => Ok(
                    Target { identity: pod.identity(), port_name: pod.port_name.clone() },
                ),
                Err(e) => Err(e.text()),
            }
        },
        Err(detail) => {
            let mut out = String::new();
            push_text(&mut out, "error: could not enumerate serial ports: ");
            push_text(&mut out, detail.as_str());
            assert(out@ =~= "error: could not enumerate serial ports: "@ + detail@);
            Err(out)
        },
    }
}

/// What to print where the port of the selected pod does not open.
pub open spec fn open_failure_text(port_name: Seq<char>, detail: Seq<char>) -> Seq<char> {
    "error: could not open "@ + port_name + ": "@ + detail
        + "; check device-access permissions (udev rule for VID 0x303a) and whether another process (hil-host or a serial monitor) holds the port"@
}

impl Target {
    /// What to print where the port does not open.
    pub fn open_failure_line(&self, detail: &str) -> (r: String)
        ensures
            r@ == open_failure_text(self.port_name@, detail@),
    {
        let mut out = String::new();
        push_text(&mut out, "error: could not open ");
        push_text(&mut out, self.port_name.as_str());
        push_text(&mut out, ": ");
        push_text(&mut out, detail);
        push_text(
            &mut out,
            "; check device-access permissions (udev rule for VID 0x303a) and whether another process (hil-host or a serial monitor) holds the port",
        );
        assert(out@ =~= open_failure_text(self.port_name@, detail@));
        out
    }
}

/// A port that is named decides, whatever serial number is named besides.
pub proof fn a_port_wins_over_a_serial_number(
    pods: Seq<PodPort>,
    path: Seq<char>,
    serial: Option<Seq<char>>,
)
    ensures
        selection(pods, Some(path), serial) == selection(pods, Some(path), None),
{
}

proof fn on_port_is_one_of_them(pods: Seq<PodPort>, path: Seq<char>)
    ensures
        on_port(pods, path) matches Some(pod) ==> pods.contains(pod) && pod.port_name@ == path,
    decreases pods.len(),
{
    if pods.len() > 0 {
        on_port_is_one_of_them(pods.drop_last(), path);
        if let Some(pod) = on_port(pods.drop_last(), path) {
            let at = pods.drop_last().index_of(pod);
            assert(pods[at] == pod);
        } else {
            assert(pods[pods.len() - 1] == pods.last());
        }
    }
}

proof fn candidates_are_among_them(pods: Seq<PodPort>, serial: Option<Seq<char>>, i: int)
    requires
        0 <= i < candidates(pods, serial).len(),
    ensures
        pods.contains(candidates(pods, serial)[i]),
        is_candidate(candidates(pods, serial)[i], serial),
    decreases pods.len(),
{
    let init = pods.drop_last();
    if i < candidates(init, serial).len() {
        candidates_are_among_them(init, serial, i);
        let at = init.index_of(candidates(init, serial)[i]);
        assert(pods[at] == candidates(init, serial)[i]);
    } else {
        assert(pods[pods.len() - 1] == pods.last());
    }
}

/// What is selected is attached, runs app firmware, and is the one that was named.
pub proof fn the_selected_pod_can_be_provisioned(
    pods: Seq<PodPort>,
    port: Option<Seq<char>>,
    serial: Option<Seq<char>>,
)
    ensures
        selection(pods, port, serial) matches Ok(pod) ==> {
            &&& pods.contains(pod)
            &&& pod.mode == PodMode::App
            &&& port matches Some(path) ==> pod.port_name@ == path
            &&& port is None ==> is_candidate(pod, serial)
        },
{
    match port {
        Some(path) => on_port_is_one_of_them(pods, path),
        None => if candidates(pods, serial).len() == 1 {
            candidates_are_among_them(pods, serial, 0);
        },
    }
}

/// A pod in its bootloader that nobody named does not stand in the way: taking it
/// off the bus leaves the selection as it was.
pub proof fn an_unrelated_bootloader_does_not_block(
    pods: Seq<PodPort>,
    at: int,
    serial: Option<Seq<char>>,
)
    requires
        0 <= at < pods.len(),
        pods[at].mode == PodMode::Dfu,
        selection(pods.remove(at), None, serial) is Ok,
    ensures
        selection(pods, None, serial) == selection(pods.remove(at), None, serial),
{
    bootloaders_are_no_candidates(pods, at, serial);
}

proof fn bootloaders_are_no_candidates(pods: Seq<PodPort>, at: int, serial: Option<Seq<char>>)
    requires
        0 <= at < pods.len(),
        pods[at].mode == PodMode::Dfu,
    ensures
        candidates(pods, serial) == candidates(pods.remove(at), serial),
    decreases pods.len(),
{
    let init = pods.drop_last();
    if at == pods.len() - 1 {
        assert(pods.remove(at) =~= init);
    } else {
        bootloaders_are_no_candidates(init, at, serial);
        assert(pods.remove(at).drop_last() =~= init.remove(at));
        assert(pods.remove(at).last() == pods.last());
    }
}

proof fn every_fitting_pod_is_a_candidate(pods: Seq<PodPort>, serial: Option<Seq<char>>, at: int)
    requires
        0 <= at < pods.len(),
        is_candidate(pods[at], serial),
    ensures
        candidates(pods, serial).contains(pods[at]),
    decreases pods.len(),
{
    let init = pods.drop_last();
    let fitting = candidates(pods, serial);
    if at == pods.len() - 1 {
        assert(fitting[fitting.len() - 1] == pods[at]);
    } else {
        assert(init[at] == pods[at]);
        every_fitting_pod_is_a_candidate(init, serial, at);
        let k = candidates(init, serial).index_of(pods[at]);
        assert(fitting[k] == pods[at]);
    }
}

proof fn one_place_one_candidate(pods: Seq<PodPort>, serial: Option<Seq<char>>, at: int)
    requires
        0 <= at < pods.len(),
        is_candidate(pods[at], serial),
        forall|i: int|
            0 <= i < pods.len() && i != at ==> !is_candidate(#[trigger] pods[i], serial),
    ensures
        candidates(pods, serial) == seq![pods[at]],
    decreases pods.len(),
{
    let init = pods.drop_last();
    assert forall|i: int| 0 <= i < init.len() && i != at implies !is_candidate(
        #[trigger] init[i],
        serial,
    ) by {
        assert(init[i] == pods[i]);
    }
    if at == pods.len() - 1 {
        no_place_no_candidate(init, serial);
        assert(candidates(pods, serial) =~= seq![pods[at]]);
    } else {
        assert(init[at] == pods[at]);
        one_place_one_candidate(init, serial, at);
        assert(!is_candidate(pods[pods.len() - 1], serial));
    }
}

proof fn no_place_no_candidate(pods: Seq<PodPort>, serial: Option<Seq<char>>)
    requires
        forall|i: int| 0 <= i < pods.len() ==> !is_candidate(#[trigger] pods[i], serial),
    ensures
        candidates(pods, serial) == Seq::<PodPort>::empty(),
    decreases pods.len(),
{
    if pods.len() > 0 {
        let init = pods.drop_last();
        assert forall|i: int| 0 <= i < init.len() implies !is_candidate(
            #[trigger] init[i],
            serial,
        ) by {
            assert(init[i] == pods[i]);
        }
        no_place_no_candidate(init, serial);
        assert(!is_candidate(pods[pods.len() - 1], serial));
    }
}

proof fn two_places_two_candidates(pods: Seq<PodPort>, serial: Option<Seq<char>>, i: int, j: int)
    requires
        0 <= i < j < pods.len(),
        is_candidate(pods[i], serial),
        is_candidate(pods[j], serial),
    ensures
        candidates(pods, serial).len() >= 2,
    decreases pods.len(),
{
    let init = pods.drop_last();
    assert(init[i] == pods[i]);
    if j == pods.len() - 1 {
        every_fitting_pod_is_a_candidate(init, serial, i);
    } else {
        assert(init[j] == pods[j]);
        two_places_two_candidates(init, serial, i, j);
    }
}

/// A pod selected by its serial number has that serial number, character by character.
pub proof fn the_serial_number_is_matched_exactly(pods: Seq<PodPort>, wanted: Seq<char>)
    ensures
        selection(pods, None, Some(wanted)) matches Ok(pod) ==> {
            &&& pods.contains(pod)
            &&& pod.mode == PodMode::App
            &&& pod.serial_number matches Some(sn) && sn@ == wanted
        },
{
    if candidates(pods, Some(wanted)).len() == 1 {
        candidates_are_among_them(pods, Some(wanted), 0);
    }
}

/// Where exactly one pod that runs app firmware has the serial number, it is selected.
pub proof fn the_pod_with_the_serial_number_is_selected(
    pods: Seq<PodPort>,
    wanted: Seq<char>,
    at: int,
)
    requires
        0 <= at < pods.len(),
        pods[at].mode == PodMode::App,
        pods[at].serial_number matches Some(sn) && sn@ == wanted,
        forall|i: int|
            0 <= i < pods.len() && i != at ==> (#[trigger] pods[i]).mode == PodMode::Dfu
                || pods[i].serial_number is None || pods[i].serial_number->0@ != wanted,
    ensures
        selection(pods, None, Some(wanted)) == Ok::<PodPort, SelErrView>(pods[at]),
{
    one_place_one_candidate(pods, Some(wanted), at);
}

/// Where no pod that runs app firmware has the serial number, none is selected, and the
/// operator is told of every pod attached.
pub proof fn an_unknown_serial_number_selects_nothing(pods: Seq<PodPort>, wanted: Seq<char>)
    requires
        forall|i: int|
            0 <= i < pods.len() ==> (#[trigger] pods[i]).mode == PodMode::Dfu
                || pods[i].serial_number is None || pods[i].serial_number->0@ != wanted,
    ensures
        selection(pods, None, Some(wanted)) matches Err(SelErrView::NotFound(ids)) && {
            &&& ids.len() == pods.len()
            &&& forall|i: int|
                0 <= i < pods.len() ==> #[trigger] ids[i] == ports::identity_text(pods[i])
        },
{
    no_place_no_candidate(pods, Some(wanted));
}

/// With neither port nor serial number named, the only pod that runs app firmware is
/// selected; two of them are ambiguous, none is refused by what is attached.
pub proof fn the_only_pod_is_selected(pods: Seq<PodPort>)
    ensures
        forall|at: int|
            0 <= at < pods.len() && (#[trigger] pods[at]).mode == PodMode::App && (forall|i: int|
                0 <= i < pods.len() && i != at ==> (#[trigger] pods[i]).mode == PodMode::Dfu)
                ==> selection(pods, None, None) == Ok::<PodPort, SelErrView>(pods[at]),
        (forall|i: int| 0 <= i < pods.len() ==> (#[trigger] pods[i]).mode == PodMode::Dfu)
            ==> selection(pods, None, None) == Err::<PodPort, SelErrView>(
            if pods.len() > 0 {
                SelErrView::OnlyDfu
            } else {
                SelErrView::NonePresent
            },
        ),
{
    assert forall|at: int|
        0 <= at < pods.len() && (#[trigger] pods[at]).mode == PodMode::App && (forall|i: int|
            0 <= i < pods.len() && i != at ==> (#[trigger] pods[i]).mode
                == PodMode::Dfu) implies selection(pods, None, None) == Ok::<
        PodPort,
        SelErrView,
    >(pods[at]) by {
        one_place_one_candidate(pods, None, at);
    }
    if forall|i: int| 0 <= i < pods.len() ==> (#[trigger] pods[i]).mode == PodMode::Dfu {
        no_place_no_candidate(pods, None);
    }
}

/// Two pods that both fit are never guessed between: the refusal names those that fit.
pub proof fn two_fitting_pods_are_ambiguous(
    pods: Seq<PodPort>,
    serial: Option<Seq<char>>,
    i: int,
    j: int,
)
    requires
        0 <= i < j < pods.len(),
        pods[i].mode == PodMode::App,
        pods[j].mode == PodMode::App,
        serial matches Some(wanted) ==> pods[i].serial_number is Some
            && pods[i].serial_number->0@ == wanted && pods[j].serial_number is Some
            && pods[j].serial_number->0@ == wanted,
    ensures
        selection(pods, None, serial) matches Err(SelErrView::Ambiguous(ids)) && {
            &&& ids.contains(ports::identity_text(pods[i]))
            &&& ids.contains(ports::identity_text(pods[j]))
        },
{
    let fitting = candidates(pods, serial);
    two_places_two_candidates(pods, serial, i, j);
    every_fitting_pod_is_a_candidate(pods, serial, i);
    every_fitting_pod_is_a_candidate(pods, serial, j);
    let a = fitting.index_of(pods[i]);
    let b = fitting.index_of(pods[j]);
    assert(identities(fitting)[a] == ports::identity_text(pods[i]));
    assert(identities(fitting)[b] == ports::identity_text(pods[j]));
}

/// Only pods that fit are named as ambiguous.
pub proof fn only_fitting_pods_are_ambiguous(
    pods: Seq<PodPort>,
    serial: Option<Seq<char>>,
    k: int,
)
    requires
        selection(pods, None, serial) matches Err(SelErrView::Ambiguous(ids)) && 0 <= k
            < ids.len(),
    ensures
        selection(pods, None, serial) matches Err(SelErrView::Ambiguous(ids)) && exists|i: int|
            {
                &&& 0 <= i < pods.len()
                &&& ids[k] == ports::identity_text(#[trigger] pods[i])
                &&& pods[i].mode == PodMode::App
                &&& serial is Some ==> pods[i].serial_number is Some
                    && pods[i].serial_number->0@ == serial->0
            },
{
    let fitting = candidates(pods, serial);
    candidates_are_among_them(pods, serial, k);
    let i = pods.index_of(fitting[k]);
    assert(pods[i] == fitting[k]);
}

proof fn on_port_finds_the_first(pods: Seq<PodPort>, path: Seq<char>, at: int)
    requires
        0 <= at < pods.len(),
        pods[at].port_name@ == path,
        forall|i: int| 0 <= i < at ==> (#[trigger] pods[i]).port_name@ != path,
    ensures
        on_port(pods, path) == Some(pods[at]),
    decreases pods.len(),
{
    let init = pods.drop_last();
    if at == pods.len() - 1 {
        on_port_is_one_of_them(init, path);
        if let Some(pod) = on_port(init, path) {
            let k = init.index_of(pod);
            assert(pods[k] == pod);
        }
    } else {
        assert(init[at] == pods[at]);
        assert forall|i: int| 0 <= i < at implies (#[trigger] init[i]).port_name@ != path by {
            assert(init[i] == pods[i]);
        }
        on_port_finds_the_first(init, path, at);
    }
}

/// The first pod on the port that was named is the one meant: it is selected where it
/// runs app firmware and refused where it is in its bootloader. Where no pod is on that
/// port the refusal names every pod attached.
pub proof fn a_named_port_is_taken_at_its_word(
    pods: Seq<PodPort>,
    path: Seq<char>,
    serial: Option<Seq<char>>,
)
    ensures
        forall|at: int|
            0 <= at < pods.len() && (#[trigger] pods[at]).port_name@ == path && (forall|i: int|
                0 <= i < at ==> (#[trigger] pods[i]).port_name@ != path) ==> selection(
                pods,
                Some(path),
                serial,
            ) == if pods[at].mode == PodMode::App {
                Ok::<PodPort, SelErrView>(pods[at])
            } else {
                Err(SelErrView::SelectedDfu)
            },
        (forall|i: int| 0 <= i < pods.len() ==> (#[trigger] pods[i]).port_name@ != path) ==> {
            selection(pods, Some(path), serial) matches Err(SelErrView::NotFound(ids)) && {
                &&& ids.len() == pods.len()
                &&& forall|i: int|
                    0 <= i < pods.len() ==> #[trigger] ids[i] == ports::identity_text(pods[i])
            }
        },
{
    assert forall|at: int|
        0 <= at < pods.len() && (#[trigger] pods[at]).port_name@ == path && (forall|i: int|
            0 <= i < at ==> (#[trigger] pods[i]).port_name@ != path) implies selection(
        pods,
        Some(path),
        serial,
    ) == if pods[at].mode == PodMode::App {
        Ok::<PodPort, SelErrView>(pods[at])
    } else {
        Err(SelErrView::SelectedDfu)
    } by {
        on_port_finds_the_first(pods, path, at);
    }
    if forall|i: int| 0 <= i < pods.len() ==> (#[trigger] pods[i]).port_name@ != path {
        on_port_is_one_of_them(pods, path);
        if let Some(pod) = on_port(pods, path) {
            let k = pods.index_of(pod);
            assert(pods[k].port_name@ != path);
        }
    }
}

/// The refusal of a selection says what is attached: nothing, only pods in their
/// bootloader, several that fit, or none that was named.
pub proof fn a_refused_selection_says_what_is_attached(ids: Seq<Seq<char>>)
    ensures
        selection_line(SelErrView::NonePresent)
            == "error: no respeaker pod found; expected VID:PID 0x303a:0x1001; check device-access permissions (udev rule for VID 0x303a)"@,
        selection_line(SelErrView::OnlyDfu)
            == "error: pod is in DFU/bootloader mode; cannot provision; boot the app firmware first"@,
        selection_line(SelErrView::SelectedDfu) == selection_line(SelErrView::OnlyDfu),
        selection_line(SelErrView::Ambiguous(ids)) == "error: multiple pods found: "@
            + text::joined(ids) + "; disambiguate with --port or --serial"@,
        ids.len() > 0 ==> selection_line(SelErrView::NotFound(ids))
            == "error: requested device not found; attached: "@ + text::joined(ids),
        ids.len() == 0 ==> selection_line(SelErrView::NotFound(ids))
            == "error: requested device not found; attached: "@ + "none"@,
{
}

/// What is opened is the pod selected among the pods on the listed ports; where none is
/// selected, or the ports cannot be listed, the operator is told why.
pub proof fn what_is_selected_is_opened(
    listed: Seq<ListedPort>,
    detail: Seq<char>,
    port: Option<Seq<char>>,
    serial: Option<Seq<char>>,
)
    ensures
        match selection(ports::pods_among(listed), port, serial) {
            Ok(pod) => target_of(Ok(listed), port, serial) == Ok::<PodPort, Seq<char>>(pod),
            Err(e) => target_of(Ok(listed), port, serial) == Err::<PodPort, Seq<char>>(
                selection_line(e),
            ),
        },
        target_of(Err(detail), port, serial) == Err::<PodPort, Seq<char>>(
            "error: could not enumerate serial ports: "@ + detail,
        ),
{
}

/// A port that does not open is named, with what the system said of it.
pub proof fn a_port_that_stays_shut_is_named(port_name: Seq<char>, detail: Seq<char>)
    ensures
        open_failure_text(port_name, detail) == "error: could not open "@ + port_name + ": "@
            + detail
            + "; check device-access permissions (udev rule for VID 0x303a) and whether another process (hil-host or a serial monitor) holds the port"@,
{
}

/// What an operator named, what the host listed and why no pod was selected are taken as
/// they are.
pub proof fn what_was_named_is_taken_as_it_is(
    text: &str,
    ports: Vec<ListedPort>,
    detail: String,
    ids: Vec<String>,
    pods: Seq<PodPort>,
    i: int,
)
    requires
        0 <= i < pods.len(),
    ensures
        named(Some(text)) == Some(text@),
        named(None) is None,
        listed_view(Ok(ports)) == Ok::<Seq<ListedPort>, Seq<char>>(ports@),
        listed_view(Err(detail)) == Err::<Seq<ListedPort>, Seq<char>>(detail@),
        SelErr::NonePresent@ is NonePresent,
        SelErr::OnlyDfu@ is OnlyDfu,
        SelErr::SelectedDfu@ is SelectedDfu,
        SelErr::Ambiguous(ids)@ == SelErrView::Ambiguous(text::texts(ids@)),
        SelErr::NotFound(ids)@ == SelErrView::NotFound(text::texts(ids@)),
        identities(pods).len() == pods.len(),
        identities(pods)[i] == ports::identity_text(pods[i]),
{
}

} // verus!
