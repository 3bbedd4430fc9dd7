//! Pods among the host's serial ports.

use vstd::prelude::*;

use crate::text::push_text;

verus! {

/// USB vendor of a pod.
pub const ESP32S3_VID: u16 = 0x303a;

/// USB product of a pod that runs app firmware.
pub const ESP32S3_APP_PID: u16 = 0x1001;

/// USB product of a pod in its bootloader.
pub const ESP32S3_DFU_PID: u16 = 0x0002;

/// The operating mode of a pod.
#[derive(Debug, Clone, Copy, PartialEq, Eq, Structural)]
pub enum PodMode {
    /// Running app firmware; accepts commands.
    App,
    /// In the bootloader; accepts none.
    Dfu,
}

/// A pod on a serial port.
#[derive(Debug)]
pub struct PodPort {
    /// Serial port path.
    pub port_name: String,
    /// USB serial number, if the device exposes one.
    pub serial_number: Option<String>,
    /// Whether the pod runs app firmware.
    pub mode: PodMode,
}

/// A serial port as the host lists it.
#[derive(Debug)]
pub struct ListedPort {
    /// Serial port path.
    pub port_name: String,
    /// What the host knows of the USB device behind it, if it is one.
    pub usb: Option<UsbInfo>,
}

/// A USB device.
#[derive(Debug)]
pub struct UsbInfo {
    /// Vendor.
    pub vid: u16,
    /// Product.
    pub pid: u16,
    /// Serial number, if the device exposes one.
    pub serial_number: Option<String>,
}

/// What operators call a pod: its port, and its serial number where it has one.
pub open spec fn identity_text(p: PodPort) -> Seq<char> {
    match p.serial_number {
        Some(sn) => p.port_name@ + " (SN "@ + sn@ + ")"@,
        None => p.port_name@,
    }
}

impl PodPort {
    /// Operator-facing identity.
    pub fn identity(&self) -> (r: String)
        ensures
            r@ == identity_text(*self),
    {
        let mut out = self.port_name.clone();
        if let Some(sn) = &self.serial_number {
            push_text(&mut out, " (SN ");
            push_text(&mut out, sn.as_str());
            push_text(&mut out, ")");
        }
        out
    }
}

/// The mode of the pod behind a USB device, where it is one.
pub open spec fn pod_mode(vid: u16, pid: u16) -> Option<PodMode> {
    if vid != ESP32S3_VID {
        None
    } else if pid == ESP32S3_APP_PID {
        Some(PodMode::App)
    } else if pid == ESP32S3_DFU_PID {
        Some(PodMode::Dfu)
    } else {
        None
    }
}

/// The pod behind a listed port, where there is one.
pub open spec fn pod_behind(p: ListedPort) -> Option<PodPort> {
    match p.usb {
        Some(usb) => match pod_mode(usb.vid, usb.pid) {
            Some(mode) => Some(
                PodPort { port_name: p.port_name, serial_number: usb.serial_number, mode },
            ),
            None => None,
        },
        None => None,
    }
}

/// The pods among listed ports, in the order of the list.
pub open spec fn pods_among(ports: Seq<ListedPort>) -> Seq<PodPort>
    decreases ports.len(),
{
    if ports.len() == 0 {
        seq![]
    } else {
        let rest = pods_among(ports.drop_last());
        match pod_behind(ports.last()) {
            Some(pod) => rest.push(pod),
            None => rest,
        }
    }
}

fn pod_of(port: &ListedPort) -> (r: Option<PodPort>)
    ensures
        r == pod_behind(*port),
{
    if let Some(usb) = &port.usb {
        if usb.vid == ESP32S3_VID {
            let mode = if usb.pid == ESP32S3_APP_PID {
                PodMode::App
            } else if usb.pid == ESP32S3_DFU_PID {
                PodMode::Dfu
            } else {
                return None;
            };
            let serial_number = match &usb.serial_number {
                Some(sn) => Some(sn.clone()),
                None => None,
            };
            return Some(PodPort { port_name: port.port_name.clone(), serial_number, mode });
        }
    }
    None
}

/// All pods, in app mode and in the bootloader, among the ports the host lists.
/// No policy is applied: callers own the selection.
pub fn enumerate_pods(ports: &[ListedPort]) -> (r: Vec<PodPort>)
    ensures
        r@ == pods_among(ports@),
{
    let mut pods: Vec<PodPort> = Vec::new();
    let mut i: usize = 0;
    while i < ports.len()
        invariant
            i <= ports.len(),
            pods@ == pods_among(ports@.take(i as int)),
        decreases ports.len() - i,
    {
        proof {
            let grown = ports@.take(i + 1);
            assert(grown.drop_last() =~= ports@.take(i as int));
            assert(grown.last() == ports@[i as int]);
        }
        if let Some(pod) = pod_of(&ports[i]) {
            pods.push(pod);
        }
        i = i + 1;
    }
    assert(ports@.take(i as int) =~= ports@);
    pods
}

/// A port is a pod's exactly where its USB ids are a pod's, and the pod keeps the port's
/// name and the device's serial number.
pub proof fn a_pod_is_known_by_its_usb_ids(port: ListedPort)
    ensures
        match pod_behind(port) {
            Some(pod) => {
                &&& port.usb is Some
                &&& port.usb->0.vid == 0x303a
                &&& pod.mode == PodMode::App <==> port.usb->0.pid == 0x1001
                &&& pod.mode == PodMode::Dfu <==> port.usb->0.pid == 0x0002
                &&& pod.port_name == port.port_name
                &&& pod.serial_number == port.usb->0.serial_number
            },
            None => port.usb is None || port.usb->0.vid != 0x303a || (port.usb->0.pid != 0x1001
                && port.usb->0.pid != 0x0002),
        },
{
}

/// Every pod among the listed ports is found once, in the order of the list: a longer
/// list finds what its parts find, one behind the other, and one port finds its own pod.
pub proof fn pods_are_found_in_order(first: Seq<ListedPort>, then: Seq<ListedPort>, one: ListedPort)
    ensures
        pods_among(first + then) == pods_among(first) + pods_among(then),
        pod_behind(one) matches Some(pod) ==> pods_among(seq![one]) == seq![pod],
        pod_behind(one) is None ==> pods_among(seq![one]) == Seq::<PodPort>::empty(),
    decreases then.len(),
{
    assert(seq![one].drop_last() =~= seq![]);
    assert(seq![one].last() == one);
    reveal_with_fuel(pods_among, 2);
    assert(pods_among(seq![]) =~= seq![]);
    if let Some(pod) = pod_behind(one) {
        assert(pods_among(seq![one]) =~= seq![pod]);
    }
    if then.len() == 0 {
        assert(first + then =~= first);
        assert(pods_among(first) + pods_among(then) =~= pods_among(first));
    } else {
        assert((first + then).drop_last() =~= first + then.drop_last());
        pods_are_found_in_order(first, then.drop_last(), one);
        assert(pods_among(first + then) =~= pods_among(first) + pods_among(then));
    }
}

/// A pod is called by its port, and by its serial number where it has one.
pub proof fn a_pod_is_called_by_port_and_serial_number(pod: PodPort)
    ensures
        pod.serial_number is None ==> identity_text(pod) == pod.port_name@,
        pod.serial_number matches Some(sn) ==> identity_text(pod) == pod.port_name@ + " (SN "@
            + sn@ + ")"@,
{
}

} // verus!
