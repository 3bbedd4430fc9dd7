//! Messages between the host and a pod, as plain values.

use vstd::prelude::*;

verus! {

/// `heapless::String`, a string with room for `N` bytes.
#[verifier::external_type_specification]
#[verifier::external_body]
pub struct ExFixedString<const N: usize>(heapless::String<N>);

/// What an SSID field holds.
pub uninterp spec fn ssid_text(field: heapless::String<32>) -> Seq<char>;

/// What a passphrase field holds.
pub uninterp spec fn passphrase_text(field: heapless::String<64>) -> Seq<char>;

/// Severity of a log line.
#[derive(Debug, Clone, Copy, PartialEq, Eq, Structural)]
pub enum LogLevel {
    /// An error.
    Error,
    /// A warning.
    Warn,
    /// Information.
    Info,
    /// Debugging detail.
    Debug,
    /// Everything.
    Trace,
}

impl LogLevel {
    /// The level's name.
    pub open spec fn name_text(self) -> Seq<char> {
        match self {
            LogLevel::Error => "Error"@,
            LogLevel::Warn => "Warn"@,
            LogLevel::Info => "Info"@,
            LogLevel::Debug => "Debug"@,
            LogLevel::Trace => "Trace"@,
        }
    }

    /// The level's name.
    pub fn name(self) -> (r: &'static str)
        ensures
            r@ == self.name_text(),
    {
        match self {
            LogLevel::Error => "Error",
            LogLevel::Warn => "Warn",
            LogLevel::Info => "Info",
            LogLevel::Debug => "Debug",
            LogLevel::Trace => "Trace",
        }
    }
}

/// A log line from the device.
#[derive(Debug, PartialEq, Eq)]
pub struct LogFrame {
    /// Severity.
    pub level: LogLevel,
    /// Where in the firmware it comes from.
    pub target: String,
    /// What it says.
    pub message: String,
}

/// How the device took a command.
#[derive(Debug, Clone, Copy, PartialEq, Eq, Structural)]
pub enum Status {
    /// Carried out.
    Done,
    /// Rejected.
    Fail,
    /// Not known to this firmware.
    Unsupported,
}

/// What a response carries besides its status.
#[derive(Debug, PartialEq, Eq)]
pub enum Payload {
    /// Nothing.
    Empty,
    /// The answer to a ping.
    Pong(String),
    /// The report of a self-test.
    TestReport {
        /// What the test says of its outcome.
        detail: String,
    },
}

/// The answer to a request.
#[derive(Debug, PartialEq, Eq)]
pub struct Response {
    /// Id of the request it answers.
    pub id: u32,
    /// How the command was taken.
    pub status: Status,
    /// What it carries.
    pub payload: Payload,
}

/// A frame from the device.
#[derive(Debug, PartialEq, Eq)]
pub enum DeviceFrame {
    /// The answer to a request.
    Response(Response),
    /// A log line.
    Log(LogFrame),
    /// A sign of life.
    Heartbeat,
}

/// A command to the device.
#[derive(Debug)]
pub enum Command {
    /// Store WiFi credentials.
    ProvisionWifi {
        /// Network name.
        ssid: heapless::String<32>,
        /// Network key.
        passphrase: heapless::String<64>,
    },
    /// Store the network peer.
    ProvisionPeer {
        /// Peer address.
        host: [u8; 4],
        /// UDP echo port.
        udp_port: u16,
        /// TCP echo port.
        tcp_port: u16,
        /// TLS endpoint address.
        tls_host: [u8; 4],
        /// TLS endpoint port.
        tls_port: u16,
        /// Inbound-frames port.
        inbound_frames_port: u16,
        /// Backpressure-source port.
        backpressure_port: u16,
        /// Poll-readiness port.
        poll_readiness_port: u16,
        /// Real-time duplex port.
        rtd_port: u16,
    },
    /// Store the audio receiver.
    ProvisionAudio {
        /// Receiver address.
        host: [u8; 4],
        /// Receiver port.
        port: u16,
    },
    /// Store the voice gate's threshold, as the bit pattern of a single-precision
    /// number.
    SetVadThreshold {
        /// The threshold's bit pattern.
        threshold_bits: u32,
    },
    /// Store the voice gate's hangover.
    SetVadHangover {
        /// Milliseconds.
        hangover_ms: u32,
    },
    /// Forget the WiFi credentials.
    ClearWifiCredentials,
    /// Use WiFi credentials until the next reboot.
    SetTemporaryWifiConfig {
        /// Network name.
        ssid: heapless::String<32>,
        /// Network key.
        passphrase: heapless::String<64>,
    },
    /// Go back to the stored WiFi credentials.
    ClearTemporaryWifiConfig,
    /// Run a self-test.
    RunTest,
}

/// An SSID field that holds `text`. Calls `heapless::String::try_from`, which
/// takes the text whole where its bytes fit and otherwise refuses it.
#[verifier::external_body]
pub(crate) fn ssid_field(text: &str) -> (r: Result<heapless::String<32>, ()>)
    ensures
        r is Ok <==> crate::text::byte_len(text@) <= 32,
        r matches Ok(field) ==> ssid_text(field) == text@,
{
    heapless::String::<32>::try_from(text)
}

/// A passphrase field that holds `text`. Calls `heapless::String::try_from`, which
/// takes the text whole where its bytes fit and otherwise refuses it.
#[verifier::external_body]
pub(crate) fn passphrase_field(text: &str) -> (r: Result<heapless::String<64>, ()>)
    ensures
        r is Ok <==> crate::text::byte_len(text@) <= 64,
        r matches Ok(field) ==> passphrase_text(field) == text@,
{
    heapless::String::<64>::try_from(text)
}

/// What an SSID field holds. Calls `heapless::String::as_str`.
#[verifier::external_body]
pub(crate) fn ssid_str(field: &heapless::String<32>) -> (r: &str)
    ensures
        r@ == ssid_text(*field),
{
    field.as_str()
}

/// A level is called by its own name.
pub proof fn a_level_has_its_own_name()
    ensures
        LogLevel::Error.name_text() == "Error"@,
        LogLevel::Warn.name_text() == "Warn"@,
        LogLevel::Info.name_text() == "Info"@,
        LogLevel::Debug.name_text() == "Debug"@,
        LogLevel::Trace.name_text() == "Trace"@,
{
}

} // verus!
