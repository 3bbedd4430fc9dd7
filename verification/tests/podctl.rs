//! The rules of the control tool: arguments, selection, reports and log streams.

use respeaker::podctl::logs::{
    emit_log_line, jsonl_open_failure_line, jsonl_record, now_unix_ms, streaming_line, FrameDuty,
    LineOutcome, LogStream, RecordOutcome, RecordWarnings,
};
use respeaker::podctl::report::{map_response, refusal_line, success_line, targeting_line};
use respeaker::podctl::select::{open_selected, select, SelErr};
use respeaker::podctl::validate::{
    command_for, parse_ipv4, parse_port, validate_audio, validate_peer, validate_set_temp_wifi,
    validate_vad_hangover, validate_vad_threshold, validate_wifi, AudioArgs, PeerArgs, Request,
    ThresholdInput, ValidationError, WifiArgs,
};
use respeaker::protocol::{Command, DeviceFrame, LogFrame, LogLevel, Payload, Response, Status};
use respeaker::transport::display::format_log;
use respeaker::transport::harness::{HarnessError, RESPONSE_TIMEOUT_SECS};
use respeaker::transport::ports::{ListedPort, PodMode, PodPort, UsbInfo};
use std::io::Write;

/// The threshold argument as the tool hands it over: the bit pattern of the number
/// that the text holds.
fn threshold(text: Option<&str>) -> ThresholdInput {
    match text {
        None => ThresholdInput::Missing,
        Some(text) => match text.parse::<f32>() {
            Ok(number) => ThresholdInput::Number(number.to_bits()),
            Err(_) => ThresholdInput::Unreadable,
        },
    }
}

fn app(name: &str) -> PodPort {
    PodPort { port_name: name.to_string(), serial_number: None, mode: PodMode::App }
}

fn app_sn(name: &str, sn: &str) -> PodPort {
    PodPort {
        port_name: name.to_string(),
        serial_number: Some(sn.to_string()),
        mode: PodMode::App,
    }
}

fn dfu(name: &str) -> PodPort {
    PodPort { port_name: name.to_string(), serial_number: None, mode: PodMode::Dfu }
}

fn ok_resp() -> Result<Response, HarnessError> {
    Ok(Response { id: 1, status: Status::Done, payload: Payload::Empty })
}

fn fail_resp(msg: Option<&str>) -> Result<Response, HarnessError> {
    let payload = match msg {
        Some(m) => Payload::TestReport { detail: m.to_string() },
        None => Payload::Empty,
    };
    Ok(Response { id: 1, status: Status::Fail, payload })
}

fn unsupported_resp() -> Result<Response, HarnessError> {
    Ok(Response { id: 1, status: Status::Unsupported, payload: Payload::Empty })
}

fn test_log(message: &str) -> LogFrame {
    LogFrame {
        level: LogLevel::Info,
        target: "wifi::driver".to_string(),
        message: message.to_string(),
    }
}

/// Accepts `ok_lines` lines and then fails every write with `fail_kind`.
struct FlakyWriter {
    buf: Vec<u8>,
    lines: usize,
    ok_lines: usize,
    fail_kind: std::io::ErrorKind,
    attempts_after_fail: usize,
}

impl FlakyWriter {
    fn new(ok_lines: usize, fail_kind: std::io::ErrorKind) -> Self {
        Self { buf: Vec::new(), lines: 0, ok_lines, fail_kind, attempts_after_fail: 0 }
    }
}

impl Write for FlakyWriter {
    fn write(&mut self, buf: &[u8]) -> std::io::Result<usize> {
        if self.lines >= self.ok_lines {
            self.attempts_after_fail += 1;
            return Err(std::io::Error::new(self.fail_kind, "stub write failure"));
        }
        self.buf.extend_from_slice(buf);
        self.lines += buf.iter().filter(|b| **b == b'\n').count();
        Ok(buf.len())
    }

    fn flush(&mut self) -> std::io::Result<()> {
        Ok(())
    }
}

/// What became of writing one line.
fn written(out: &mut impl Write, line: &str) -> LineOutcome {
    match writeln_to(out, line) {
        Ok(()) => LineOutcome::Written,
        Err(e) if e.kind() == std::io::ErrorKind::BrokenPipe => LineOutcome::BrokenPipe,
        Err(e) => LineOutcome::Failed(e.to_string()),
    }
}

fn writeln_to(out: &mut impl Write, line: &str) -> std::io::Result<()> {
    out.write_all(format!("{line}\n").as_bytes())
}

/// Streams one read's worth of log lines and gives the exit code.
fn stream(msgs: &[&str], mut jsonl: Option<&mut Vec<u8>>, out: &mut FlakyWriter) -> Option<i32> {
    let mut stream = LogStream::new(jsonl.is_some());
    for m in msgs {
        match stream.on_frame(&DeviceFrame::Log(test_log(m)), 17) {
            FrameDuty::Log { record, line } => {
                if let (Some(file), Some(record)) = (jsonl.as_mut(), record) {
                    writeln_to(*file, &record).expect("a vector takes everything");
                }
                if let Some(line) = line {
                    let outcome = written(out, &line);
                    stream.on_line(outcome);
                }
            }
            other => panic!("a log line is due output, got {other:?}"),
        }
    }
    stream.on_read(None).0
}

#[test]
fn validate_wifi_happy_path() {
    let cmd = validate_wifi(WifiArgs {
        ssid: Some("homenet".into()),
        passphrase: Some("s3cr3t".into()),
    })
    .unwrap();
    match cmd {
        Command::ProvisionWifi { ssid, passphrase } => {
            assert_eq!(ssid.as_str(), "homenet");
            assert_eq!(passphrase.as_str(), "s3cr3t");
        }
        _ => panic!("wrong command type"),
    }
}

#[test]
fn validate_wifi_empty_passphrase_allowed() {
    // Open network: empty passphrase must pass through.
    let cmd = validate_wifi(WifiArgs {
        ssid: Some("opennet".into()),
        passphrase: Some(String::new()),
    })
    .unwrap();
    match cmd {
        Command::ProvisionWifi { passphrase, .. } => {
            assert_eq!(passphrase.as_str(), "");
        }
        _ => panic!("wrong command type"),
    }
}

#[test]
fn validate_wifi_missing_ssid() {
    let err = validate_wifi(WifiArgs {
        ssid: None,
        passphrase: Some("pass".into()),
    })
    .unwrap_err();
    assert!(
        matches!(err, ValidationError::Missing { input: "SSID", .. }),
        "got {err:?}"
    );
}

#[test]
fn validate_wifi_missing_passphrase() {
    let err = validate_wifi(WifiArgs {
        ssid: Some("net".into()),
        passphrase: None,
    })
    .unwrap_err();
    assert!(
        matches!(
            err,
            ValidationError::Missing {
                input: "passphrase",
                ..
            }
        ),
        "got {err:?}"
    );
}

#[test]
fn validate_wifi_empty_ssid_rejected() {
    let err = validate_wifi(WifiArgs {
        ssid: Some(String::new()),
        passphrase: Some("pass".into()),
    })
    .unwrap_err();
    assert_eq!(err, ValidationError::EmptySsid);
}

#[test]
fn validate_wifi_ssid_33_bytes_rejected() {
    // 33-byte SSID (33 ASCII chars).
    let ssid = "a".repeat(33);
    let err = validate_wifi(WifiArgs {
        ssid: Some(ssid),
        passphrase: Some("pass".into()),
    })
    .unwrap_err();
    assert_eq!(err, ValidationError::SsidTooLong { bytes: 33 });
}

#[test]
fn validate_wifi_ssid_32_bytes_accepted() {
    let ssid = "a".repeat(32);
    assert!(validate_wifi(WifiArgs {
        ssid: Some(ssid),
        passphrase: Some("pass".into()),
    })
    .is_ok());
}

#[test]
fn validate_wifi_passphrase_65_bytes_rejected() {
    let pass = "p".repeat(65);
    let err = validate_wifi(WifiArgs {
        ssid: Some("net".into()),
        passphrase: Some(pass),
    })
    .unwrap_err();
    assert_eq!(err, ValidationError::PassphraseTooLong { bytes: 65 });
}

#[test]
fn validate_wifi_passphrase_64_bytes_accepted() {
    let pass = "p".repeat(64);
    assert!(validate_wifi(WifiArgs {
        ssid: Some("net".into()),
        passphrase: Some(pass),
    })
    .is_ok());
}

#[test]
fn validate_wifi_multibyte_ssid_byte_length_checked() {
    // 11 x 3-byte UTF-8 chars = 33 bytes; must be rejected even though char count is 11.
    // '中' is 3 bytes UTF-8; 11 * 3 = 33 bytes.
    let ssid_cjk = "中".repeat(11);
    assert_eq!(ssid_cjk.len(), 33); // sanity-check
    let err = validate_wifi(WifiArgs {
        ssid: Some(ssid_cjk),
        passphrase: Some("pass".into()),
    })
    .unwrap_err();
    assert_eq!(err, ValidationError::SsidTooLong { bytes: 33 });

    // 10 * 3 = 30 bytes — should pass.
    let ssid_ok = "中".repeat(10);
    assert_eq!(ssid_ok.len(), 30);
    assert!(validate_wifi(WifiArgs {
        ssid: Some(ssid_ok),
        passphrase: Some("pass".into()),
    })
    .is_ok());
}

#[test]
fn validate_set_temp_wifi_happy_path() {
    let cmd = validate_set_temp_wifi(WifiArgs {
        ssid: Some("homenet".into()),
        passphrase: Some("s3cr3t".into()),
    })
    .unwrap();
    match cmd {
        Command::SetTemporaryWifiConfig { ssid, passphrase } => {
            assert_eq!(ssid.as_str(), "homenet");
            assert_eq!(passphrase.as_str(), "s3cr3t");
        }
        _ => panic!("wrong command type"),
    }
}

#[test]
fn validate_set_temp_wifi_empty_ssid_rejected() {
    let err = validate_set_temp_wifi(WifiArgs {
        ssid: Some(String::new()),
        passphrase: Some("pass".into()),
    })
    .unwrap_err();
    assert_eq!(err, ValidationError::EmptySsid);
}

#[test]
fn validate_set_temp_wifi_missing_ssid() {
    let err = validate_set_temp_wifi(WifiArgs {
        ssid: None,
        passphrase: Some("pass".into()),
    })
    .unwrap_err();
    assert!(
        matches!(err, ValidationError::Missing { input: "SSID", .. }),
        "got {err:?}"
    );
}

#[test]
fn validate_peer_happy_path() {
    let cmd = validate_peer(PeerArgs {
        host: Some("192.168.1.10".into()),
        udp_port: Some("5000".into()),
        tcp_port: Some("5001".into()),
        tls_host: Some("10.0.0.1".into()),
        tls_port: Some("8883".into()),
        inbound_frames_port: Some("17382".into()),
        backpressure_port: Some("17383".into()),
        poll_readiness_port: Some("17384".into()),
        rtd_port: Some("17385".into()),
    })
    .unwrap();
    match cmd {
        Command::ProvisionPeer {
            host,
            udp_port,
            tcp_port,
            tls_host,
            tls_port,
            inbound_frames_port,
            backpressure_port,
            poll_readiness_port,
            rtd_port,
        } => {
            assert_eq!(host, [192, 168, 1, 10]);
            assert_eq!(udp_port, 5000);
            assert_eq!(tcp_port, 5001);
            assert_eq!(tls_host, [10, 0, 0, 1]);
            assert_eq!(tls_port, 8883);
            assert_eq!(inbound_frames_port, 17382);
            assert_eq!(backpressure_port, 17383);
            assert_eq!(poll_readiness_port, 17384);
            assert_eq!(rtd_port, 17385);
        }
        _ => panic!("wrong command type"),
    }
}

#[test]
fn validate_peer_missing_host() {
    let err = validate_peer(PeerArgs {
        host: None,
        udp_port: Some("5000".into()),
        tcp_port: Some("5001".into()),
        tls_host: Some("10.0.0.1".into()),
        tls_port: Some("8883".into()),
        inbound_frames_port: Some("17382".into()),
        backpressure_port: Some("17383".into()),
        poll_readiness_port: Some("17384".into()),
        rtd_port: Some("17385".into()),
    })
    .unwrap_err();
    assert!(matches!(
        err,
        ValidationError::Missing { input: "host", .. }
    ));
}

#[test]
fn validate_peer_bad_ipv4_host() {
    let err = validate_peer(PeerArgs {
        host: Some("not-an-ip".into()),
        udp_port: Some("5000".into()),
        tcp_port: Some("5001".into()),
        tls_host: Some("10.0.0.1".into()),
        tls_port: Some("8883".into()),
        inbound_frames_port: Some("17382".into()),
        backpressure_port: Some("17383".into()),
        poll_readiness_port: Some("17384".into()),
        rtd_port: Some("17385".into()),
    })
    .unwrap_err();
    assert!(
        matches!(
            err,
            ValidationError::InvalidField {
                field: "host",
                expected: "dotted IPv4"
            }
        ),
        "got {err:?}"
    );
}

#[test]
fn validate_peer_bad_ipv4_tls_host() {
    let err = validate_peer(PeerArgs {
        host: Some("192.168.1.1".into()),
        udp_port: Some("5000".into()),
        tcp_port: Some("5001".into()),
        tls_host: Some("999.999.999.999".into()),
        tls_port: Some("8883".into()),
        inbound_frames_port: Some("17382".into()),
        backpressure_port: Some("17383".into()),
        poll_readiness_port: Some("17384".into()),
        rtd_port: Some("17385".into()),
    })
    .unwrap_err();
    assert!(
        matches!(
            err,
            ValidationError::InvalidField {
                field: "tls-host",
                ..
            }
        ),
        "got {err:?}"
    );
}

#[test]
fn validate_peer_non_numeric_port() {
    let err = validate_peer(PeerArgs {
        host: Some("192.168.1.1".into()),
        udp_port: Some("notaport".into()),
        tcp_port: Some("5001".into()),
        tls_host: Some("10.0.0.1".into()),
        tls_port: Some("8883".into()),
        inbound_frames_port: Some("17382".into()),
        backpressure_port: Some("17383".into()),
        poll_readiness_port: Some("17384".into()),
        rtd_port: Some("17385".into()),
    })
    .unwrap_err();
    assert!(
        matches!(
            err,
            ValidationError::InvalidField {
                field: "udp-port",
                expected: "port (0–65535)"
            }
        ),
        "got {err:?}"
    );
}

#[test]
fn validate_peer_port_overflow() {
    let err = validate_peer(PeerArgs {
        host: Some("192.168.1.1".into()),
        udp_port: Some("65536".into()), // > u16::MAX
        tcp_port: Some("5001".into()),
        tls_host: Some("10.0.0.1".into()),
        tls_port: Some("8883".into()),
        inbound_frames_port: Some("17382".into()),
        backpressure_port: Some("17383".into()),
        poll_readiness_port: Some("17384".into()),
        rtd_port: Some("17385".into()),
    })
    .unwrap_err();
    assert!(
        matches!(
            err,
            ValidationError::InvalidField {
                field: "udp-port",
                ..
            }
        ),
        "got {err:?}"
    );
}

#[test]
fn validate_peer_missing_inbound_frames_port() {
    let err = validate_peer(PeerArgs {
        host: Some("192.168.1.1".into()),
        udp_port: Some("5000".into()),
        tcp_port: Some("5001".into()),
        tls_host: Some("10.0.0.1".into()),
        tls_port: Some("8883".into()),
        inbound_frames_port: None,
        backpressure_port: Some("17383".into()),
        poll_readiness_port: Some("17384".into()),
        rtd_port: Some("17385".into()),
    })
    .unwrap_err();
    assert!(
        matches!(
            err,
            ValidationError::Missing {
                input: "inbound-frames-port",
                ..
            }
        ),
        "got {err:?}"
    );
}

#[test]
fn validate_peer_missing_backpressure_port() {
    let err = validate_peer(PeerArgs {
        host: Some("192.168.1.1".into()),
        udp_port: Some("5000".into()),
        tcp_port: Some("5001".into()),
        tls_host: Some("10.0.0.1".into()),
        tls_port: Some("8883".into()),
        inbound_frames_port: Some("17382".into()),
        backpressure_port: None,
        poll_readiness_port: Some("17384".into()),
        rtd_port: Some("17385".into()),
    })
    .unwrap_err();
    assert!(
        matches!(
            err,
            ValidationError::Missing {
                input: "backpressure-port",
                ..
            }
        ),
        "got {err:?}"
    );
}

#[test]
fn validate_peer_missing_poll_readiness_port() {
    let err = validate_peer(PeerArgs {
        host: Some("192.168.1.1".into()),
        udp_port: Some("5000".into()),
        tcp_port: Some("5001".into()),
        tls_host: Some("10.0.0.1".into()),
        tls_port: Some("8883".into()),
        inbound_frames_port: Some("17382".into()),
        backpressure_port: Some("17383".into()),
        poll_readiness_port: None,
        rtd_port: Some("17385".into()),
    })
    .unwrap_err();
    assert!(
        matches!(
            err,
            ValidationError::Missing {
                input: "poll-readiness-port",
                ..
            }
        ),
        "got {err:?}"
    );
}

#[test]
fn validate_peer_missing_rtd_port() {
    let err = validate_peer(PeerArgs {
        host: Some("192.168.1.1".into()),
        udp_port: Some("5000".into()),
        tcp_port: Some("5001".into()),
        tls_host: Some("10.0.0.1".into()),
        tls_port: Some("8883".into()),
        inbound_frames_port: Some("17382".into()),
        backpressure_port: Some("17383".into()),
        poll_readiness_port: Some("17384".into()),
        rtd_port: None,
    })
    .unwrap_err();
    assert!(
        matches!(
            err,
            ValidationError::Missing {
                input: "rtd-port",
                ..
            }
        ),
        "got {err:?}"
    );
}

#[test]
fn validate_peer_non_numeric_inbound_frames_port() {
    let err = validate_peer(PeerArgs {
        host: Some("192.168.1.1".into()),
        udp_port: Some("5000".into()),
        tcp_port: Some("5001".into()),
        tls_host: Some("10.0.0.1".into()),
        tls_port: Some("8883".into()),
        inbound_frames_port: Some("notaport".into()),
        backpressure_port: Some("17383".into()),
        poll_readiness_port: Some("17384".into()),
        rtd_port: Some("17385".into()),
    })
    .unwrap_err();
    assert!(
        matches!(
            err,
            ValidationError::InvalidField {
                field: "inbound-frames-port",
                expected: "port (0–65535)"
            }
        ),
        "got {err:?}"
    );
}

#[test]
fn validate_peer_inbound_frames_port_overflow() {
    let err = validate_peer(PeerArgs {
        host: Some("192.168.1.1".into()),
        udp_port: Some("5000".into()),
        tcp_port: Some("5001".into()),
        tls_host: Some("10.0.0.1".into()),
        tls_port: Some("8883".into()),
        inbound_frames_port: Some("65536".into()), // > u16::MAX
        backpressure_port: Some("17383".into()),
        poll_readiness_port: Some("17384".into()),
        rtd_port: Some("17385".into()),
    })
    .unwrap_err();
    assert!(
        matches!(
            err,
            ValidationError::InvalidField {
                field: "inbound-frames-port",
                ..
            }
        ),
        "got {err:?}"
    );
}

#[test]
fn validate_audio_happy_path() {
    let cmd = validate_audio(AudioArgs {
        host: Some("192.168.1.100".into()),
        audio_port: Some("7380".into()),
    })
    .unwrap();
    match cmd {
        Command::ProvisionAudio { host, port } => {
            assert_eq!(host, [192, 168, 1, 100]);
            assert_eq!(port, 7380);
        }
        _ => panic!("wrong command type"),
    }
}

#[test]
fn validate_audio_missing_host() {
    let err = validate_audio(AudioArgs {
        host: None,
        audio_port: Some("7380".into()),
    })
    .unwrap_err();
    assert!(
        matches!(err, ValidationError::Missing { input: "host", .. }),
        "got {err:?}"
    );
}

#[test]
fn validate_audio_missing_port() {
    let err = validate_audio(AudioArgs {
        host: Some("192.168.1.100".into()),
        audio_port: None,
    })
    .unwrap_err();
    assert!(
        matches!(
            err,
            ValidationError::Missing {
                input: "audio-port",
                ..
            }
        ),
        "got {err:?}"
    );
}

#[test]
fn validate_audio_bad_ipv4() {
    let err = validate_audio(AudioArgs {
        host: Some("not-an-ip".into()),
        audio_port: Some("7380".into()),
    })
    .unwrap_err();
    assert!(
        matches!(
            err,
            ValidationError::InvalidField {
                field: "host",
                expected: "dotted IPv4"
            }
        ),
        "got {err:?}"
    );
}

#[test]
fn validate_audio_bad_port() {
    let err = validate_audio(AudioArgs {
        host: Some("192.168.1.1".into()),
        audio_port: Some("99999".into()),
    })
    .unwrap_err();
    assert!(
        matches!(
            err,
            ValidationError::InvalidField {
                field: "audio-port",
                ..
            }
        ),
        "got {err:?}"
    );
}

#[test]
fn success_line_audio_shows_host_and_port() {
    let cmd = Command::ProvisionAudio {
        host: [192, 168, 1, 100],
        port: 7380,
    };
    let line = success_line("/dev/ttyACM0", &cmd, "");
    assert!(
        line.contains("192.168.1.100"),
        "success_line must contain host; got: {line:?}"
    );
    assert!(
        line.contains("7380"),
        "success_line must contain port; got: {line:?}"
    );
    assert!(
        line.contains("/dev/ttyACM0"),
        "success_line must contain identity; got: {line:?}"
    );
}

#[test]
fn validate_vad_threshold_happy_path() {
    let cmd = validate_vad_threshold(threshold(Some("1.5"))).unwrap();
    match cmd {
        Command::SetVadThreshold { threshold_bits } => {
            let threshold = f32::from_bits(threshold_bits);
            assert!(
                (threshold - 1.5f32).abs() < 1e-6,
                "threshold mismatch: {threshold}"
            );
        }
        _ => panic!("wrong command type"),
    }
}

#[test]
fn validate_vad_threshold_zero_accepted() {
    // 0.0 is permitted: strict > in the FSM means any energy > 0 opens the voice gate.
    let cmd = validate_vad_threshold(threshold(Some("0.0"))).unwrap();
    match cmd {
        Command::SetVadThreshold { threshold_bits } => {
            let threshold = f32::from_bits(threshold_bits);
            assert_eq!(threshold, 0.0f32);
        }
        _ => panic!("wrong command type"),
    }
}

#[test]
fn validate_vad_threshold_missing_rejected() {
    let err = validate_vad_threshold(threshold(None)).unwrap_err();
    assert!(
        matches!(
            err,
            ValidationError::Missing {
                input: "threshold",
                ..
            }
        ),
        "got {err:?}"
    );
}

#[test]
fn validate_vad_threshold_non_numeric_rejected() {
    let err = validate_vad_threshold(threshold(Some("not-a-float"))).unwrap_err();
    assert!(
        matches!(
            err,
            ValidationError::InvalidField {
                field: "threshold",
                ..
            }
        ),
        "got {err:?}"
    );
}

#[test]
fn validate_vad_threshold_negative_rejected() {
    let err = validate_vad_threshold(threshold(Some("-1.0"))).unwrap_err();
    assert!(
        matches!(
            err,
            ValidationError::InvalidField {
                field: "threshold",
                expected: "non-negative finite float"
            }
        ),
        "got {err:?}"
    );
}

#[test]
fn validate_vad_threshold_nan_rejected() {
    let err = validate_vad_threshold(threshold(Some("NaN"))).unwrap_err();
    assert!(
        matches!(
            err,
            ValidationError::InvalidField {
                field: "threshold",
                ..
            }
        ),
        "got {err:?}"
    );
}

#[test]
fn validate_vad_threshold_inf_rejected() {
    let err = validate_vad_threshold(threshold(Some("inf"))).unwrap_err();
    assert!(
        matches!(
            err,
            ValidationError::InvalidField {
                field: "threshold",
                ..
            }
        ),
        "got {err:?}"
    );
}

#[test]
fn validate_vad_threshold_neg_inf_rejected() {
    // Rust's f32 parser accepts "-inf" as f32::NEG_INFINITY; verify it is
    // caught by the is_finite() guard (not just the >= 0.0 guard).
    let err = validate_vad_threshold(threshold(Some("-inf"))).unwrap_err();
    assert!(
        matches!(
            err,
            ValidationError::InvalidField {
                field: "threshold",
                ..
            }
        ),
        "got {err:?}"
    );
}

#[test]
fn success_line_set_vad_threshold_contains_value_and_reboot_note() {
    let cmd = Command::SetVadThreshold { threshold_bits: 1.5f32.to_bits() };
    let line = success_line("/dev/ttyACM0", &cmd, "1.5");
    assert!(
        line.contains("1.5"),
        "success_line must contain threshold value; got: {line:?}"
    );
    assert!(
        line.contains("/dev/ttyACM0"),
        "success_line must contain identity; got: {line:?}"
    );
    assert!(
        line.contains("reboot"),
        "success_line must mention reboot requirement; got: {line:?}"
    );
}

#[test]
fn validate_vad_hangover_happy_path() {
    let cmd = validate_vad_hangover(Some("3000".into())).unwrap();
    match cmd {
        Command::SetVadHangover { hangover_ms } => assert_eq!(hangover_ms, 3000),
        _ => panic!("wrong command type"),
    }
}

#[test]
fn validate_vad_hangover_zero_accepted() {
    let cmd = validate_vad_hangover(Some("0".into())).unwrap();
    match cmd {
        Command::SetVadHangover { hangover_ms } => assert_eq!(hangover_ms, 0),
        _ => panic!("wrong command type"),
    }
}

#[test]
fn validate_vad_hangover_missing_rejected() {
    let err = validate_vad_hangover(None).unwrap_err();
    assert!(
        matches!(
            err,
            ValidationError::Missing {
                input: "hangover_ms",
                ..
            }
        ),
        "got {err:?}"
    );
}

#[test]
fn validate_vad_hangover_non_numeric_rejected() {
    let err = validate_vad_hangover(Some("not-an-int".into())).unwrap_err();
    assert!(
        matches!(
            err,
            ValidationError::InvalidField {
                field: "hangover_ms",
                ..
            }
        ),
        "got {err:?}"
    );
}

#[test]
fn validate_vad_hangover_negative_rejected() {
    // u32 parse rejects a leading minus.
    let err = validate_vad_hangover(Some("-1".into())).unwrap_err();
    assert!(
        matches!(
            err,
            ValidationError::InvalidField {
                field: "hangover_ms",
                ..
            }
        ),
        "got {err:?}"
    );
}

#[test]
fn success_line_set_vad_hangover_contains_value_and_reboot_note() {
    let cmd = Command::SetVadHangover { hangover_ms: 3000 };
    let line = success_line("/dev/ttyACM0", &cmd, "");
    assert!(
        line.contains("3000"),
        "success_line must contain hangover value; got: {line:?}"
    );
    assert!(
        line.contains("/dev/ttyACM0"),
        "success_line must contain identity; got: {line:?}"
    );
    assert!(
        line.contains("reboot"),
        "success_line must mention reboot requirement; got: {line:?}"
    );
}

#[test]
fn select_no_pods_ac3() {
    let pods: Vec<PodPort> = vec![];
    assert!(matches!(
        select(&pods, None, None),
        Err(SelErr::NonePresent)
    ));
}

#[test]
fn select_only_dfu_ac4() {
    let pods = vec![dfu("/dev/ttyACM0")];
    assert!(matches!(select(&pods, None, None), Err(SelErr::OnlyDfu)));
}

#[test]
fn select_one_app_pod_selected() {
    let pods = vec![app("/dev/ttyACM0")];
    let p = select(&pods, None, None).unwrap();
    assert_eq!(p.port_name, "/dev/ttyACM0");
}

#[test]
fn select_one_app_with_unrelated_dfu_selected() {
    // DFU pod on bus must NOT block selection of the only app pod.
    let pods = vec![app("/dev/ttyACM0"), dfu("/dev/ttyACM1")];
    let p = select(&pods, None, None).unwrap();
    assert_eq!(p.port_name, "/dev/ttyACM0");
}

#[test]
fn select_multiple_app_pods_ac5() {
    let pods = vec![app("/dev/ttyACM0"), app("/dev/ttyACM1")];
    assert!(matches!(
        select(&pods, None, None),
        Err(SelErr::Ambiguous(_))
    ));
}

#[test]
fn select_explicit_port_app_ac6() {
    let pods = vec![app("/dev/ttyACM0"), app("/dev/ttyACM1")];
    let p = select(&pods, Some("/dev/ttyACM1"), None).unwrap();
    assert_eq!(p.port_name, "/dev/ttyACM1");
}

#[test]
fn select_explicit_port_with_dfu_present_selects_app() {
    // --port points to app pod; DFU pod on bus must not block.
    let pods = vec![app("/dev/ttyACM0"), dfu("/dev/ttyACM1")];
    let p = select(&pods, Some("/dev/ttyACM0"), None).unwrap();
    assert_eq!(p.port_name, "/dev/ttyACM0");
}

#[test]
fn select_explicit_port_to_dfu_ac4() {
    let pods = vec![app("/dev/ttyACM0"), dfu("/dev/ttyACM1")];
    assert!(matches!(
        select(&pods, Some("/dev/ttyACM1"), None),
        Err(SelErr::SelectedDfu)
    ));
}

#[test]
fn select_explicit_port_not_found_ac7() {
    let pods = vec![app("/dev/ttyACM0")];
    assert!(matches!(
        select(&pods, Some("/dev/ttyACM9"), None),
        Err(SelErr::NotFound(_))
    ));
}

#[test]
fn select_by_serial_match() {
    let pods = vec![app_sn("/dev/ttyACM0", "ABC123"), app("/dev/ttyACM1")];
    let p = select(&pods, None, Some("ABC123")).unwrap();
    assert_eq!(p.port_name, "/dev/ttyACM0");
}

#[test]
fn select_by_serial_not_found_ac7() {
    let pods = vec![app_sn("/dev/ttyACM0", "ABC123")];
    assert!(matches!(
        select(&pods, None, Some("ZZZZZ")),
        Err(SelErr::NotFound(_))
    ));
}

#[test]
fn select_port_wins_over_serial() {
    // --port and --serial both given; --port is authoritative.
    let pods = vec![
        app_sn("/dev/ttyACM0", "SN-A"),
        app_sn("/dev/ttyACM1", "SN-B"),
    ];
    let p = select(&pods, Some("/dev/ttyACM1"), Some("SN-A")).unwrap();
    assert_eq!(p.port_name, "/dev/ttyACM1"); // port wins, not serial
}

#[test]
fn identity_with_sn() {
    let p = app_sn("/dev/ttyACM0", "XYZ");
    assert_eq!(p.identity(), "/dev/ttyACM0 (SN XYZ)");
}

#[test]
fn identity_without_sn() {
    let p = app("/dev/ttyACM0");
    assert_eq!(p.identity(), "/dev/ttyACM0");
}

#[test]
fn success_line_never_contains_passphrase() {
    // Build a ProvisionWifi command with a known passphrase.
    let mut hs_ssid = heapless::String::<32>::new();
    hs_ssid.push_str("homenet").unwrap();
    let mut hs_pass = heapless::String::<64>::new();
    hs_pass.push_str("supersecret").unwrap();
    let cmd = Command::ProvisionWifi {
        ssid: hs_ssid,
        passphrase: hs_pass,
    };
    let line = success_line("/dev/ttyACM0", &cmd, "");
    assert!(
        !line.contains("supersecret"),
        "success_line must not contain passphrase; got: {line:?}"
    );
}

#[test]
fn success_line_wifi_contains_ssid() {
    let mut hs_ssid = heapless::String::<32>::new();
    hs_ssid.push_str("homenet").unwrap();
    let mut hs_pass = heapless::String::<64>::new();
    hs_pass.push_str("pass").unwrap();
    let cmd = Command::ProvisionWifi {
        ssid: hs_ssid,
        passphrase: hs_pass,
    };
    let line = success_line("/dev/ttyACM0 (SN ABC)", &cmd, "");
    assert!(
        line.contains("homenet"),
        "success_line should mention SSID; got: {line:?}"
    );
    assert!(
        line.contains("/dev/ttyACM0"),
        "success_line should mention port; got: {line:?}"
    );
}

/// The destructive clear must name the clear action and the device it hit, so the
/// operator cannot mistake it for one of the provisioning commands.
#[test]
fn success_line_clear_wifi_names_clear_action_and_identity() {
    let line = success_line("/dev/ttyACM0 (SN ABC)", &Command::ClearWifiCredentials, "");
    assert!(
        line.contains("cleared"),
        "success_line must name the clear action; got: {line:?}"
    );
    assert!(
        line.contains("wifi credentials"),
        "success_line must name what was cleared; got: {line:?}"
    );
    assert!(
        line.contains("/dev/ttyACM0 (SN ABC)"),
        "success_line must contain identity; got: {line:?}"
    );
    assert!(
        !line.contains("provisioned"),
        "success_line must not read as a provisioning action; got: {line:?}"
    );
}

#[test]
fn success_line_set_temp_wifi_contains_ssid_not_passphrase() {
    let mut hs_ssid = heapless::String::<32>::new();
    hs_ssid.push_str("homenet").unwrap();
    let mut hs_pass = heapless::String::<64>::new();
    hs_pass.push_str("supersecret").unwrap();
    let cmd = Command::SetTemporaryWifiConfig {
        ssid: hs_ssid,
        passphrase: hs_pass,
    };
    let line = success_line("/dev/ttyACM0 (SN ABC)", &cmd, "");
    assert!(
        line.contains("homenet"),
        "success_line should mention SSID; got: {line:?}"
    );
    assert!(
        !line.contains("supersecret"),
        "success_line must not contain passphrase; got: {line:?}"
    );
    assert!(
        line.contains("/dev/ttyACM0 (SN ABC)"),
        "success_line must contain identity; got: {line:?}"
    );
}

#[test]
fn success_line_clear_temp_wifi_names_action_and_identity() {
    let line = success_line("/dev/ttyACM0 (SN ABC)", &Command::ClearTemporaryWifiConfig, "");
    assert!(
        line.contains("cleared"),
        "success_line must name the clear action; got: {line:?}"
    );
    assert!(
        line.contains("temporary wifi"),
        "success_line must name what was cleared; got: {line:?}"
    );
    assert!(
        line.contains("/dev/ttyACM0 (SN ABC)"),
        "success_line must contain identity; got: {line:?}"
    );
}

#[test]
fn map_response_ok_exits_zero_stdout() {
    let (msg, to_stdout, exit) = map_response(
        ok_resp(),
        "provisioned wifi on /dev/ttyACM0",
        "/dev/ttyACM0",
    );
    assert_eq!(exit, 0);
    assert!(to_stdout, "a command carried out must go to stdout");
    assert_eq!(msg, "provisioned wifi on /dev/ttyACM0");
}

#[test]
fn map_response_fail_with_test_report_exits_nonzero_stderr() {
    let (msg, to_stdout, exit) = map_response(
        fail_resp(Some("nvs write failed")),
        "ignored",
        "/dev/ttyACM0",
    );
    assert_eq!(exit, 1);
    assert!(!to_stdout, "Status::Fail must go to stderr");
    assert!(
        msg.contains("device rejected the command"),
        "AC12 phrase missing; got: {msg:?}"
    );
    assert!(
        msg.contains("nvs write failed"),
        "AC12 detail missing; got: {msg:?}"
    );
}

#[test]
fn map_response_fail_escapes_device_authored_detail() {
    let (msg, _to_stdout, _exit) = map_response(
        fail_resp(Some("\x1b[31mforged\x1b[0m\nline")),
        "ignored",
        "/dev/ttyACM0",
    );
    assert!(
        !msg.contains('\x1b') && !msg.contains('\n'),
        "device detail must be escaped before hitting the terminal; got: {msg:?}"
    );
    assert!(
        msg.contains("\\u{1b}") && msg.contains("\\n"),
        "expected escaped control sequences; got: {msg:?}"
    );
}

#[test]
fn map_response_fail_without_payload_exits_nonzero() {
    let (msg, to_stdout, exit) = map_response(fail_resp(None), "ignored", "/dev/ttyACM0");
    assert_eq!(exit, 1);
    assert!(!to_stdout);
    assert!(
        msg.contains("device rejected the command"),
        "AC12 phrase missing; got: {msg:?}"
    );
    // No extra detail appended after "command".
    assert!(
        msg.ends_with("command"),
        "unexpected trailing detail; got: {msg:?}"
    );
}

#[test]
fn map_response_unsupported_exits_nonzero_stderr() {
    let (msg, to_stdout, exit) = map_response(unsupported_resp(), "ignored", "/dev/ttyACM0");
    assert_eq!(exit, 1);
    assert!(!to_stdout, "Status::Unsupported must go to stderr");
    assert!(
        msg.contains("firmware does not support"),
        "AC13 phrase missing; got: {msg:?}"
    );
    assert!(
        msg.contains("firmware/protocol mismatch"),
        "AC13 hint missing; got: {msg:?}"
    );
}

#[test]
fn map_response_timeout_exits_nonzero_with_seconds() {
    let (msg, to_stdout, exit) =
        map_response(Err(HarnessError::Timeout), "ignored", "/dev/ttyACM0");
    assert_eq!(exit, 1);
    assert!(!to_stdout, "Timeout must go to stderr");
    assert!(
        msg.contains("timed out after"),
        "AC14 phrase missing; got: {msg:?}"
    );
    // The number of seconds is the timeout's own.
    let secs = RESPONSE_TIMEOUT_SECS.to_string();
    assert!(
        msg.contains(&secs),
        "AC14 must include timeout seconds ({secs}); got: {msg:?}"
    );
}

#[test]
fn select_multiple_app_pods_ac5_identity_list() {
    // Ambiguous must carry correct identity strings for both pods.
    let pods = vec![app_sn("/dev/ttyACM0", "SN-A"), app("/dev/ttyACM1")];
    match select(&pods, None, None) {
        Err(SelErr::Ambiguous(ids)) => {
            assert!(!ids.is_empty(), "AC5 identity list must not be empty");
            assert!(
                ids.iter()
                    .any(|s| s.contains("/dev/ttyACM0") && s.contains("SN-A")),
                "AC5 list must contain identity for ttyACM0 (SN SN-A); got: {ids:?}"
            );
            assert!(
                ids.iter().any(|s| s.contains("/dev/ttyACM1")),
                "AC5 list must contain identity for ttyACM1; got: {ids:?}"
            );
        }
        other => panic!("expected Ambiguous; got {other:?}"),
    }
}

#[test]
fn select_explicit_port_not_found_ac7_identity_list() {
    // NotFound must carry the attached pod's identity string.
    let pods = vec![app_sn("/dev/ttyACM0", "SN-X")];
    match select(&pods, Some("/dev/ttyACM9"), None) {
        Err(SelErr::NotFound(ids)) => {
            assert!(!ids.is_empty(), "AC7 identity list must not be empty");
            assert!(
                ids.iter()
                    .any(|s| s.contains("/dev/ttyACM0") && s.contains("SN-X")),
                "AC7 list must contain attached pod identity; got: {ids:?}"
            );
        }
        other => panic!("expected NotFound; got {other:?}"),
    }
}

#[test]
fn select_by_serial_duplicate_sn_ac5() {
    // Two app pods with the same SN → AC5 Ambiguous.
    let pods = vec![
        app_sn("/dev/ttyACM0", "DUPE"),
        app_sn("/dev/ttyACM1", "DUPE"),
    ];
    assert!(
        matches!(select(&pods, None, Some("DUPE")), Err(SelErr::Ambiguous(_))),
        "duplicate SN with --serial must produce AC5 Ambiguous"
    );
}

#[test]
fn select_by_serial_dfu_pod_falls_to_ac7() {
    // A DFU pod is present with a matching serial number (or None), no app pod.
    // Current contract (until HIL confirms DFU exposes SN): falls to AC7 NotFound.
    let dfu_with_sn = PodPort {
        port_name: "/dev/ttyACM0".to_string(),
        serial_number: Some("TARGET".to_string()),
        mode: PodMode::Dfu,
    };
    let pods = vec![dfu_with_sn];
    assert!(
        matches!(
            select(&pods, None, Some("TARGET")),
            Err(SelErr::NotFound(_))
        ),
        "--serial to DFU pod must fall to AC7 NotFound (not AC4) until HIL confirms"
    );
}

#[test]
fn validate_peer_missing_udp_port() {
    let err = validate_peer(PeerArgs {
        host: Some("192.168.1.1".into()),
        udp_port: None,
        tcp_port: Some("5001".into()),
        tls_host: Some("10.0.0.1".into()),
        tls_port: Some("8883".into()),
        inbound_frames_port: Some("17382".into()),
        backpressure_port: Some("17383".into()),
        poll_readiness_port: Some("17384".into()),
        rtd_port: Some("17385".into()),
    })
    .unwrap_err();
    assert!(
        matches!(
            err,
            ValidationError::Missing {
                input: "udp-port",
                flag: "udp-port",
                env: "PODCTL_UDP_PORT"
            }
        ),
        "got {err:?}"
    );
}

#[test]
fn validate_peer_missing_tcp_port() {
    let err = validate_peer(PeerArgs {
        host: Some("192.168.1.1".into()),
        udp_port: Some("5000".into()),
        tcp_port: None,
        tls_host: Some("10.0.0.1".into()),
        tls_port: Some("8883".into()),
        inbound_frames_port: Some("17382".into()),
        backpressure_port: Some("17383".into()),
        poll_readiness_port: Some("17384".into()),
        rtd_port: Some("17385".into()),
    })
    .unwrap_err();
    assert!(
        matches!(
            err,
            ValidationError::Missing {
                input: "tcp-port",
                flag: "tcp-port",
                env: "PODCTL_TCP_PORT"
            }
        ),
        "got {err:?}"
    );
}

#[test]
fn validate_peer_missing_tls_host() {
    let err = validate_peer(PeerArgs {
        host: Some("192.168.1.1".into()),
        udp_port: Some("5000".into()),
        tcp_port: Some("5001".into()),
        tls_host: None,
        tls_port: Some("8883".into()),
        inbound_frames_port: Some("17382".into()),
        backpressure_port: Some("17383".into()),
        poll_readiness_port: Some("17384".into()),
        rtd_port: Some("17385".into()),
    })
    .unwrap_err();
    assert!(
        matches!(
            err,
            ValidationError::Missing {
                input: "tls-host",
                flag: "tls-host",
                env: "PODCTL_TLS_HOST"
            }
        ),
        "got {err:?}"
    );
}

#[test]
fn validate_peer_missing_tls_port() {
    let err = validate_peer(PeerArgs {
        host: Some("192.168.1.1".into()),
        udp_port: Some("5000".into()),
        tcp_port: Some("5001".into()),
        tls_host: Some("10.0.0.1".into()),
        tls_port: None,
        inbound_frames_port: Some("17382".into()),
        backpressure_port: Some("17383".into()),
        poll_readiness_port: Some("17384".into()),
        rtd_port: Some("17385".into()),
    })
    .unwrap_err();
    assert!(
        matches!(
            err,
            ValidationError::Missing {
                input: "tls-port",
                flag: "tls-port",
                env: "PODCTL_TLS_PORT"
            }
        ),
        "got {err:?}"
    );
}

#[test]
fn jsonl_record_shape() {
    let log = LogFrame {
        level: LogLevel::Info,
        target: "wifi::driver".to_string(),
        message: "connect\nfailed: café".to_string(),
    };
    let line = jsonl_record(now_unix_ms(), &log);
    let v: serde_json::Value = serde_json::from_str(&line).expect("output must be valid JSON");
    assert_eq!(v["level"], serde_json::Value::String("Info".to_owned()));
    assert_eq!(v["target"].as_str().unwrap(), "wifi::driver");
    assert_eq!(v["message"].as_str().unwrap(), "connect\nfailed: café");
    let ts = v["ts_ms"].as_u64().expect("ts_ms must be a u64");
    assert!(ts > 0, "ts_ms must be > 0; got {ts}");
    assert_eq!(
        jsonl_record(5, &log),
        "{\"ts_ms\":5,\"level\":\"Info\",\"target\":\"wifi::driver\",\"message\":\"connect\\nfailed: café\"}"
    );
}

#[test]
fn write_jsonl_record_produces_valid_newline_terminated_json() {
    let log = LogFrame {
        level: LogLevel::Warn,
        target: "net".to_string(),
        message: "timeout".to_string(),
    };
    let mut buf: Vec<u8> = Vec::new();
    writeln_to(&mut buf, &jsonl_record(now_unix_ms(), &log)).expect("a vector takes everything");
    assert!(buf.ends_with(b"\n"), "output must end with newline");
    let line = std::str::from_utf8(&buf).expect("output must be UTF-8").trim_end_matches('\n');
    assert!(!line.contains('\n'), "output must be exactly one line");
    let v: serde_json::Value = serde_json::from_str(line).expect("output must be valid JSON");
    assert_eq!(v["level"], serde_json::Value::String("Warn".to_owned()));
    assert_eq!(v["target"].as_str().unwrap(), "net");
    assert_eq!(v["message"].as_str().unwrap(), "timeout");
    let ts = v["ts_ms"].as_u64().expect("ts_ms must be a u64");
    assert!(ts > 0, "ts_ms must be > 0; got {ts}");
}

#[test]
fn jsonl_level_variants_serialize_as_variant_name_strings() {
    let cases = [
        (LogLevel::Error, "Error"),
        (LogLevel::Warn, "Warn"),
        (LogLevel::Info, "Info"),
        (LogLevel::Debug, "Debug"),
        (LogLevel::Trace, "Trace"),
    ];
    for (level, expected) in cases {
        let log = LogFrame { level, target: String::new(), message: String::new() };
        let line = jsonl_record(0, &log);
        assert!(
            line.contains(&format!("\"level\":\"{}\"", expected)),
            "{expected:?} must be written as its name; got {line}"
        );
        assert_eq!(level.name(), expected);
    }
}

#[test]
fn map_response_io_error_includes_identity_not_passphrase() {
    let io_err = std::io::Error::new(std::io::ErrorKind::BrokenPipe, "Input/output error");
    let (msg, to_stdout, exit) = map_response(
        Err(HarnessError::Write(io_err.to_string())),
        "ignored",
        "/dev/ttyACM0 (SN ABC)",
    );
    assert_eq!(exit, 1);
    assert!(!to_stdout, "I/O error must go to stderr");
    // Identity included in error.
    assert!(
        msg.contains("/dev/ttyACM0"),
        "I/O error must include port identity; got: {msg:?}"
    );
    // Passphrase never reaches map_response; structural guarantee tested here.
    assert!(
        !msg.contains("supersecret"),
        "error must not contain passphrase; got: {msg:?}"
    );
}

#[test]
fn emit_log_line_writes_formatted_line() {
    let log = test_log("hello");
    let mut out: Vec<u8> = Vec::new();
    let outcome = written(&mut out, &format_log(&log));
    assert!(emit_log_line(outcome).unwrap());
    assert_eq!(String::from_utf8(out).unwrap(), format!("{}\n", format_log(&log)));
    assert_eq!(format_log(&log), "[device Info] wifi::driver: hello");
}

#[test]
fn emit_log_line_broken_pipe_is_clean_stop() {
    let mut out = FlakyWriter::new(0, std::io::ErrorKind::BrokenPipe);
    let outcome = written(&mut out, &format_log(&test_log("hello")));
    assert!(!emit_log_line(outcome).unwrap());
}

#[test]
fn emit_log_line_other_error_propagates() {
    let mut out = FlakyWriter::new(0, std::io::ErrorKind::Other);
    let outcome = written(&mut out, &format_log(&test_log("hello")));
    assert_eq!(emit_log_line(outcome).unwrap_err(), "stub write failure");
}

#[test]
fn emit_log_line_against_real_closed_pipe() {
    let (rx, mut tx) = std::io::pipe().unwrap();
    drop(rx);
    let outcome = written(&mut tx, &format_log(&test_log("hello")));
    assert!(!emit_log_line(outcome).unwrap());
}

#[test]
fn stream_logs_exits_zero_when_pipe_closes() {
    let mut out = FlakyWriter::new(1, std::io::ErrorKind::BrokenPipe);
    let code = stream(&["one", "two"], None, &mut out);
    assert_eq!(code, Some(0));
    assert_eq!(out.buf.iter().filter(|b| **b == b'\n').count(), 1);
    assert_eq!(
        out.attempts_after_fail, 1,
        "second frame of the batch must not be written to a dead stdout"
    );
}

#[test]
fn stream_logs_exits_one_on_real_write_error() {
    let mut out = FlakyWriter::new(0, std::io::ErrorKind::Other);
    let code = stream(&["one", "two"], None, &mut out);
    assert_eq!(code, Some(1));
    assert_eq!(
        out.attempts_after_fail, 1,
        "a hard write error must be reported once, not once per frame in the batch"
    );
}

#[test]
fn stream_logs_keeps_jsonl_after_stdout_dies() {
    let mut file: Vec<u8> = Vec::new();
    let mut out = FlakyWriter::new(0, std::io::ErrorKind::BrokenPipe);
    let code = stream(&["one", "two"], Some(&mut file), &mut out);
    assert_eq!(code, Some(0));
    let jsonl = String::from_utf8(file).unwrap();
    assert_eq!(jsonl.lines().count(), 2, "both frames must reach JSONL");
    assert_eq!(
        out.attempts_after_fail, 1,
        "both frames arrived in one batch, but only the first may touch stdout"
    );
}

#[test]
fn an_address_is_four_octets_in_decimal_without_leading_zeros() {
    assert_eq!(parse_ipv4("0.0.0.0", "host"), Ok([0, 0, 0, 0]));
    assert_eq!(parse_ipv4("255.255.255.255", "host"), Ok([255, 255, 255, 255]));
    assert_eq!(parse_ipv4("1.20.30.4", "host"), Ok([1, 20, 30, 4]));
    for text in [
        "", ".", "1.2.3", "1.2.3.4.", ".1.2.3.4", "1..2.3", "1.2.3.4.5", "01.2.3.4", "1.2.3.04",
        "256.1.1.1", "1.1.1.1000", "1.2.3.4 ", " 1.2.3.4", "+1.2.3.4", "a.b.c.d", "1.2.3.-4",
    ] {
        assert_eq!(
            parse_ipv4(text, "host"),
            Err(ValidationError::InvalidField { field: "host", expected: "dotted IPv4" }),
            "{text:?}"
        );
    }
}

#[test]
fn a_port_is_digits_with_or_without_a_plus_sign() {
    for (text, port) in [("0", 0), ("65535", 65535), ("+80", 80), ("0080", 80)] {
        assert_eq!(parse_port(text, "udp-port"), Ok(port), "{text:?}");
    }
    for text in ["", "+", "-1", "65536", "99999999999999999999999", "8 0", "0x50", "++1", "1_0"] {
        assert_eq!(
            parse_port(text, "udp-port"),
            Err(ValidationError::InvalidField { field: "udp-port", expected: "port (0–65535)" }),
            "{text:?}"
        );
    }
}

#[test]
fn a_hangover_fills_its_width() {
    assert!(matches!(
        validate_vad_hangover(Some("4294967295".into())),
        Ok(Command::SetVadHangover { hangover_ms: u32::MAX })
    ));
    assert!(validate_vad_hangover(Some("4294967296".into())).is_err());
}

#[test]
fn a_threshold_of_minus_zero_is_not_below_zero() {
    assert!(validate_vad_threshold(threshold(Some("-0.0"))).is_ok());
    assert!(validate_vad_threshold(threshold(Some("3.4e38"))).is_ok());
    assert!(validate_vad_threshold(threshold(Some("-1e-45"))).is_err());
}

#[test]
fn everything_missing_is_reported_before_anything_unreadable() {
    let err = validate_peer(PeerArgs {
        host: Some("nonsense".into()),
        udp_port: Some("nonsense".into()),
        tcp_port: None,
        tls_host: None,
        tls_port: None,
        inbound_frames_port: None,
        backpressure_port: None,
        poll_readiness_port: None,
        rtd_port: None,
    })
    .unwrap_err();
    assert_eq!(
        err,
        ValidationError::Missing {
            input: "tcp-port",
            flag: "tcp-port",
            env: "PODCTL_TCP_PORT"
        }
    );
}

#[test]
fn refusals_read_as_operators_read_them() {
    let cases = [
        (
            ValidationError::Missing { input: "SSID", flag: "ssid", env: "PODCTL_WIFI_SSID" },
            "error: missing SSID; supply --ssid or $PODCTL_WIFI_SSID",
        ),
        (ValidationError::EmptySsid, "error: SSID must not be empty"),
        (
            ValidationError::SsidTooLong { bytes: 33 },
            "error: SSID is 33 bytes; protocol limit is 32 bytes",
        ),
        (
            ValidationError::PassphraseTooLong { bytes: 65 },
            "error: passphrase is 65 bytes; protocol limit is 64 bytes",
        ),
        (
            ValidationError::InvalidField { field: "host", expected: "dotted IPv4" },
            "error: host is not a valid dotted IPv4",
        ),
    ];
    for (error, line) in cases {
        assert_eq!(refusal_line(&error), line);
    }
    assert_eq!(targeting_line("/dev/ttyACM0"), "targeting /dev/ttyACM0");
}

#[test]
fn every_request_makes_its_command() {
    let wifi = || WifiArgs { ssid: Some("net".into()), passphrase: Some("key".into()) };
    assert!(matches!(
        command_for(Request::ProvisionWifi(wifi())),
        Ok(Command::ProvisionWifi { .. })
    ));
    assert!(matches!(
        command_for(Request::SetTempWifi(wifi())),
        Ok(Command::SetTemporaryWifiConfig { .. })
    ));
    assert!(matches!(
        command_for(Request::ClearTempWifi),
        Ok(Command::ClearTemporaryWifiConfig)
    ));
    assert!(matches!(
        command_for(Request::ProvisionAudio(AudioArgs {
            host: Some("10.0.0.9".into()),
            audio_port: Some("7380".into()),
        })),
        Ok(Command::ProvisionAudio { host: [10, 0, 0, 9], port: 7380 })
    ));
    assert!(matches!(
        command_for(Request::SetVadThreshold(threshold(Some("0.5")))),
        Ok(Command::SetVadThreshold { threshold_bits: 0x3f00_0000 })
    ));
    assert!(matches!(
        command_for(Request::SetVadHangover(Some("12".into()))),
        Ok(Command::SetVadHangover { hangover_ms: 12 })
    ));
    assert!(matches!(
        command_for(Request::SetVadHangover(None)),
        Err(ValidationError::Missing { .. })
    ));
}

#[test]
fn a_stored_name_reaches_the_success_line() {
    let command = validate_wifi(WifiArgs {
        ssid: Some("homenet".into()),
        passphrase: Some("s3cr3t".into()),
    })
    .unwrap();
    assert_eq!(
        success_line("/dev/ttyACM0", &command, ""),
        "provisioned wifi on /dev/ttyACM0: SSID \"homenet\""
    );
    assert_eq!(
        success_line("p", &Command::RunTest, ""),
        "sent command on p"
    );
    assert_eq!(
        success_line("p", &Command::SetVadThreshold { threshold_bits: 0 }, "0"),
        "provisioned VAD threshold 0 on p (reboot to apply)"
    );
}

fn listed(name: &str, pid: u16, sn: Option<&str>) -> ListedPort {
    ListedPort {
        port_name: name.to_string(),
        usb: Some(UsbInfo { vid: 0x303a, pid, serial_number: sn.map(str::to_string) }),
    }
}

#[test]
fn the_target_is_selected_among_the_listed_ports() {
    let ports = Ok(vec![
        ListedPort { port_name: "/dev/ttyS0".to_string(), usb: None },
        listed("/dev/ttyACM0", 0x1001, Some("A")),
        listed("/dev/ttyACM1", 0x0002, None),
    ]);
    let target = open_selected(&ports, None, None).expect("one pod runs app firmware");
    assert_eq!(target.identity, "/dev/ttyACM0 (SN A)");
    assert_eq!(target.port_name, "/dev/ttyACM0");
    assert_eq!(
        target.open_failure_line("busy"),
        "error: could not open /dev/ttyACM0: busy; check device-access permissions (udev rule for VID 0x303a) and whether another process (hil-host or a serial monitor) holds the port"
    );
    assert_eq!(
        open_selected(&ports, Some("/dev/ttyACM1"), None).unwrap_err(),
        "error: pod is in DFU/bootloader mode; cannot provision; boot the app firmware first"
    );
    assert_eq!(
        open_selected(&ports, Some("/dev/ttyS0"), None).unwrap_err(),
        "error: requested device not found; attached: /dev/ttyACM0 (SN A), /dev/ttyACM1"
    );
    assert_eq!(
        open_selected(&Ok(vec![]), Some("/dev/ttyS0"), None).unwrap_err(),
        "error: requested device not found; attached: none"
    );
    assert_eq!(
        open_selected(&Ok(vec![]), None, None).unwrap_err(),
        "error: no respeaker pod found; expected VID:PID 0x303a:0x1001; check device-access permissions (udev rule for VID 0x303a)"
    );
    let two = Ok(vec![listed("a", 0x1001, None), listed("b", 0x1001, None)]);
    assert_eq!(
        open_selected(&two, None, None).unwrap_err(),
        "error: multiple pods found: a, b; disambiguate with --port or --serial"
    );
    assert_eq!(
        open_selected(&Err("denied".to_string()), None, None).unwrap_err(),
        "error: could not enumerate serial ports: denied"
    );
}

#[test]
fn a_stream_handles_every_kind_of_frame() {
    let stream = LogStream::new(false);
    assert_eq!(stream.on_frame(&DeviceFrame::Heartbeat, 1), FrameDuty::Nothing);
    let response = Response { id: 4, status: Status::Done, payload: Payload::Empty };
    assert_eq!(
        stream.on_frame(&DeviceFrame::Response(response), 1),
        FrameDuty::Warn(
            "WARN: unexpected response frame while streaming logs; ignoring".to_string()
        )
    );
    assert_eq!(
        stream.on_frame(&DeviceFrame::Log(test_log("x")), 1),
        FrameDuty::Log {
            record: None,
            line: Some("[device Info] wifi::driver: x".to_string()),
        }
    );
    assert_eq!(
        stream.on_read(Some("gone")),
        (
            Some(1),
            Some("error: serial read failed: gone; device disconnected?".to_string())
        )
    );
    assert_eq!(stream.on_read(None), (None, None));
    let mut failing = LogStream::new(false);
    assert_eq!(
        failing.on_line(LineOutcome::Failed("full".to_string())),
        Some("error: writing log to stdout failed: full".to_string())
    );
    assert_eq!(failing.stop, Some(1));
}

#[test]
fn a_failure_of_the_record_file_is_warned_of_once() {
    let mut warnings = RecordWarnings::new();
    let write = RecordOutcome::WriteFailed("full".to_string());
    let flush = RecordOutcome::FlushFailed("slow".to_string());
    assert_eq!(warnings.note(&RecordOutcome::Stored), None);
    assert_eq!(
        warnings.note(&write),
        Some("warn: JSONL write failed (further failures suppressed): full".to_string())
    );
    assert_eq!(warnings.note(&write), None);
    assert_eq!(
        warnings.note(&flush),
        Some("warn: JSONL flush failed (further failures suppressed): slow".to_string())
    );
    assert_eq!(warnings.note(&flush), None);
}

#[test]
fn a_stream_announces_itself() {
    assert_eq!(streaming_line("p"), "streaming logs from p; press Ctrl-C to stop");
    assert_eq!(
        jsonl_open_failure_line("/x", "denied"),
        "error: cannot open JSONL file /x: denied"
    );
}
