//! What the tool tells its operator.

use vstd::prelude::*;

use crate::podctl::validate::{self, push_dotted, ValidationError};
use crate::protocol::{self, ssid_str, Command, Payload, Response, Status};
use crate::text::{self, push_decimal, push_text};
use crate::transport::display::{self, escape_device_str};
use crate::transport::harness::{self, HarnessError, RESPONSE_TIMEOUT_SECS};

verus! {

/// The line for arguments that make no command.
pub open spec fn refusal_text(e: ValidationError) -> Seq<char> {
    "error: "@ + validate::error_text(e)
}

/// The line for arguments that make no command.
pub fn refusal_line(e: &ValidationError) -> (r: String)
    ensures
        r@ == refusal_text(*e),
{
    let mut out = String::new();
    push_text(&mut out, "error: ");
    let why = e.text();
    push_text(&mut out, why.as_str());
    assert(out@ =~= refusal_text(*e));
    out
}

/// The line that names the pod about to be addressed.
pub fn targeting_line(identity: &str) -> (r: String)
    ensures
        r@ == "targeting "@ + identity@,
{
    let mut out = String::new();
    push_text(&mut out, "targeting ");
    push_text(&mut out, identity);
    assert(out@ =~= "targeting "@ + identity@);
    out
}

/// The line for a command that was carried out. `threshold` is the number that a
/// threshold command carries, written out.
pub open spec fn success_text(
    identity: Seq<char>,
    command: Command,
    threshold: Seq<char>,
) -> Seq<char> {
    match command {
        Command::ProvisionWifi { ssid, .. } => "provisioned wifi on "@ + identity + ": SSID \""@
            + protocol::ssid_text(ssid) + "\""@,
        Command::ProvisionPeer { .. } => "provisioned peer config on "@ + identity,
        Command::ProvisionAudio { host, port } => "provisioned audio receiver on "@ + identity
            + ": "@ + validate::dotted(host@) + ":"@ + text::decimal(port as nat),
        Command::SetVadThreshold { .. } => "provisioned VAD threshold "@ + threshold + " on "@
            + identity + " (reboot to apply)"@,
        Command::SetVadHangover { hangover_ms } => "provisioned VAD hangover "@ + text::decimal(
            hangover_ms as nat,
        ) + " ms on "@ + identity + " (reboot to apply)"@,
        Command::ClearWifiCredentials => "cleared wifi credentials on "@ + identity,
        Command::SetTemporaryWifiConfig { ssid, .. } => "applied temporary wifi config on "@
            + identity + ": SSID \""@ + protocol::ssid_text(ssid)
            + "\" (RAM-only; reboot reverts)"@,
        Command::ClearTemporaryWifiConfig => "cleared temporary wifi config on "@ + identity
            + " (reverted to persisted credentials, if any)"@,
        Command::RunTest => "sent command on "@ + identity,
    }
}

/// The line for a command that was carried out. It names the network where there is
/// one and never its key. `threshold` is the number that a threshold command
/// carries, written out; no other command uses it.
pub fn success_line(identity: &str, command: &Command, threshold: &str) -> (r: String)
    ensures
        r@ == success_text(identity@, *command, threshold@),
{
    let mut out = String::new();
    match command {
        Command::ProvisionWifi { ssid, .. } => {
            push_text(&mut out, "provisioned wifi on ");
            push_text(&mut out, identity);
            push_text(&mut out, ": SSID \"");
            push_text(&mut out, ssid_str(ssid));
            push_text(&mut out, "\"");
        },
        Command::ProvisionPeer { .. } => {
            push_text(&mut out, "provisioned peer config on ");
            push_text(&mut out, identity);
        },
        Command::ProvisionAudio { host, port } => {
            push_text(&mut out, "provisioned audio receiver on ");
            push_text(&mut out, identity);
            push_text(&mut out, ": ");
            push_dotted(&mut out, host);
            push_text(&mut out, ":");
            push_decimal(&mut out, *port as u64);
        },
        Command::SetVadThreshold { .. } => {
            push_text(&mut out, "provisioned VAD threshold ");
            push_text(&mut out, threshold);
            push_text(&mut out, " on ");
            push_text(&mut out, identity);
            push_text(&mut out, " (reboot to apply)");
        },
        Command::SetVadHangover { hangover_ms } => {
            push_text(&mut out, "provisioned VAD hangover ");
            push_decimal(&mut out, *hangover_ms as u64);
            push_text(&mut out, " ms on ");
            push_text(&mut out, identity);
            push_text(&mut out, " (reboot to apply)");
        },
        Command::ClearWifiCredentials => {
            push_text(&mut out, "cleared wifi credentials on ");
            push_text(&mut out, identity);
        },
        Command::SetTemporaryWifiConfig { ssid, .. } => {
            push_text(&mut out, "applied temporary wifi config on ");
            push_text(&mut out, identity);
            push_text(&mut out, ": SSID \"");
            push_text(&mut out, ssid_str(ssid));
            push_text(&mut out, "\" (RAM-only; reboot reverts)");
        },
        Command::ClearTemporaryWifiConfig => {
            push_text(&mut out, "cleared temporary wifi config on ");
            push_text(&mut out, identity);
            push_text(&mut out, " (reverted to persisted credentials, if any)");
        },
        Command::RunTest => {
            push_text(&mut out, "sent command on ");
            push_text(&mut out, identity);
        },
    }
    assert(out@ =~= success_text(identity@, *command, threshold@));
    out
}

/// How a command came out, for its operator.
pub struct Report {
    /// The line to print.
    pub line: Seq<char>,
    /// Whether it goes to the standard output, else to the standard error.
    pub to_stdout: bool,
    /// The exit code.
    pub exit: i32,
}

/// A report of failure.
pub open spec fn failed(line: Seq<char>) -> Report {
    Report { line, to_stdout: false, exit: 1 }
}

/// How a command came out.
pub open spec fn outcome(
    result: Result<Response, HarnessError>,
    success: Seq<char>,
    identity: Seq<char>,
) -> Report {
    match result {
        Ok(response) => match response.status {
            Status::Done => Report { line: success, to_stdout: true, exit: 0 },
            Status::Fail => failed(
                "error: device rejected the command"@ + match response.payload {
                    Payload::TestReport { detail } => ": "@ + display::shown(detail@),
                    _ => seq![],
                },
            ),
            Status::Unsupported => failed(
                "error: firmware does not support this command (firmware/protocol mismatch)"@,
            ),
        },
        Err(HarnessError::Timeout) => failed(
            "error: timed out after "@ + text::decimal(RESPONSE_TIMEOUT_SECS as nat)
                + " s waiting for device response"@,
        ),
        Err(e) => failed("error on "@ + identity + ": "@ + harness::error_text(e)),
    }
}

fn failure_line(result: &Result<Response, HarnessError>, identity: &str) -> (r: String)
    requires
        !(result matches Ok(response) && response.status == Status::Done),
    ensures
        r@ == outcome(*result, seq![], identity@).line,
{
    let mut out = String::new();
    match result {
        Ok(response) => match response.status {
            Status::Unsupported => {
                push_text(
                    &mut out,
                    "error: firmware does not support this command (firmware/protocol mismatch)",
                );
            },
            _ => {
                push_text(&mut out, "error: device rejected the command");
                if let Payload::TestReport { detail } = &response.payload {
                    push_text(&mut out, ": ");
                    let shown = escape_device_str(detail.as_str());
                    push_text(&mut out, shown.as_str());
                }
            },
        },
        Err(HarnessError::Timeout) => {
            push_text(&mut out, "error: timed out after ");
            push_decimal(&mut out, RESPONSE_TIMEOUT_SECS);
            push_text(&mut out, " s waiting for device response");
        },
        Err(e) => {
            push_text(&mut out, "error on ");
            push_text(&mut out, identity);
            push_text(&mut out, ": ");
            let why = e.text();
            push_text(&mut out, why.as_str());
        },
    }
    assert(out@ =~= outcome(*result, seq![], identity@).line);
    out
}

/// Turns what became of a command into a line, whether it goes to the standard
/// output, and the exit code. `success` is the line for a command that was carried
/// out. What the device wrote is made safe to print.
pub fn map_response(
    result: Result<Response, HarnessError>,
    success: &str,
    identity: &str,
) -> (r: (String, bool, i32))
    ensures
        ({
            let report = outcome(result, success@, identity@);
            r.0@ == report.line && r.1 == report.to_stdout && r.2 == report.exit
        }),
{
    if let Ok(response) = &result {
        if response.status == Status::Done {
            return (success.to_owned(), true, 0);
        }
    }
    (failure_line(&result, identity), false, 1)
}

/// A network's key never reaches the operator's screen: commands that differ in it
/// alone are reported alike.
pub proof fn the_passphrase_is_never_shown(
    identity: Seq<char>,
    ssid: heapless::String<32>,
    key: heapless::String<64>,
    other_key: heapless::String<64>,
    threshold: Seq<char>,
)
    ensures
        success_text(
            identity,
            Command::ProvisionWifi { ssid, passphrase: key },
            threshold,
        ) == success_text(
            identity,
            Command::ProvisionWifi { ssid, passphrase: other_key },
            threshold,
        ),
        success_text(
            identity,
            Command::SetTemporaryWifiConfig { ssid, passphrase: key },
            threshold,
        ) == success_text(
            identity,
            Command::SetTemporaryWifiConfig { ssid, passphrase: other_key },
            threshold,
        ),
{
}

/// The exit code is zero exactly where the device carried the command out, and
/// only then does the line go to the standard output.
pub proof fn only_success_exits_with_zero(
    result: Result<Response, HarnessError>,
    success: Seq<char>,
    identity: Seq<char>,
)
    ensures
        ({
            let report = outcome(result, success, identity);
            let carried_out = result matches Ok(response) && response.status == Status::Done;
            &&& report.exit == 0 <==> carried_out
            &&& report.to_stdout <==> carried_out
            &&& report.exit == 0 || report.exit == 1
        }),
{
}

/// A command that was carried out is reported with the line for it. One that the device
/// rejected is reported as that, with what a test said of it made safe to print; one
/// that the firmware does not know, one that got no response in time and one that the
/// link failed are each told apart.
pub proof fn every_outcome_has_a_line_of_its_own(
    response: Response,
    error: HarnessError,
    success: Seq<char>,
    identity: Seq<char>,
)
    ensures
        ({
            let report = outcome(Ok(response), success, identity);
            &&& response.status == Status::Done ==> report.line == success
            &&& response.status == Status::Fail && !(response.payload is TestReport)
                ==> report.line == "error: device rejected the command"@
            &&& response.status == Status::Fail && response.payload is TestReport ==> report.line
                == "error: device rejected the command"@ + ": "@ + display::shown(
                response.payload->detail@,
            )
            &&& response.status == Status::Unsupported ==> report.line
                == "error: firmware does not support this command (firmware/protocol mismatch)"@
        }),
        ({
            let report = outcome(Err(error), success, identity);
            &&& error is Timeout ==> report.line == "error: timed out after "@ + text::decimal(10)
                + " s waiting for device response"@
            &&& !(error is Timeout) ==> report.line == "error on "@ + identity + ": "@
                + harness::error_text(error)
        }),
{
    let rejected = "error: device rejected the command"@;
    assert(rejected + Seq::<char>::empty() =~= rejected);
    if let Payload::TestReport { detail } = response.payload {
        assert(rejected + (": "@ + display::shown(detail@)) =~= rejected + ": "@ + display::shown(
            detail@,
        ));
    }
}

/// The line for a command that was carried out says what was done, on which pod, and
/// with what.
pub proof fn a_success_says_what_was_done(
    identity: Seq<char>,
    command: Command,
    threshold: Seq<char>,
)
    ensures
        success_text(identity, command, threshold) == match command {
            Command::ProvisionWifi { ssid, .. } => "provisioned wifi on "@ + identity
                + ": SSID \""@ + protocol::ssid_text(ssid) + "\""@,
            Command::ProvisionPeer { .. } => "provisioned peer config on "@ + identity,
            Command::ProvisionAudio { host, port } => "provisioned audio receiver on "@ + identity
                + ": "@ + validate::dotted(host@) + ":"@ + text::decimal(port as nat),
            Command::SetVadThreshold { .. } => "provisioned VAD threshold "@ + threshold + " on "@
                + identity + " (reboot to apply)"@,
            Command::SetVadHangover { hangover_ms } => "provisioned VAD hangover "@
                + text::decimal(hangover_ms as nat) + " ms on "@ + identity
                + " (reboot to apply)"@,
            Command::ClearWifiCredentials => "cleared wifi credentials on "@ + identity,
            Command::SetTemporaryWifiConfig { ssid, .. } => "applied temporary wifi config on "@
                + identity + ": SSID \""@ + protocol::ssid_text(ssid)
                + "\" (RAM-only; reboot reverts)"@,
            Command::ClearTemporaryWifiConfig => "cleared temporary wifi config on "@ + identity
                + " (reverted to persisted credentials, if any)"@,
            Command::RunTest => "sent command on "@ + identity,
        },
{
}

/// A refusal is told as an error, with its own words.
pub proof fn a_refusal_is_told_as_an_error(e: ValidationError)
    ensures
        refusal_text(e) == "error: "@ + validate::error_text(e),
{
}

} // verus!
