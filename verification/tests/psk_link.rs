//! The Linux side of the link: waits, session bookkeeping and the handshake.

use respeaker::clock::{Duration, Instant};
use respeaker::psk_link::connect::{
    ConnectError, FaultKind, Handshake, HandshakeFailure, HandshakeNext, LinkPlatform,
};
use respeaker::psk_link::poll::{LibcPoll, PollBits, PollCall, PollNext};
use respeaker::psk_link::session::{classify, LinkFault, TlsFault, TlsLink};
use respeaker::streamer::link::{PollInterest, Want};
use respeaker::streamer::netpoll::Readiness;

const BITS: PollBits =
    PollBits { pollin: 0x1, pollout: 0x4, pollerr: 0x8, pollhup: 0x10, pollnval: 0x20 };

fn at(ms: u64) -> Instant {
    Instant::from_nanos(u128::from(ms) * 1_000_000)
}

/// A step of a handshake that wants something, or comes to nothing.
type Step = Result<(), TlsFault<HandshakeFailure<u8>>>;

#[test]
fn a_connected_socket_is_writable_now() {
    assert_eq!(LibcPoll::events(BITS, PollInterest::write()), libc::POLLOUT);
    let (wait, millis) = LibcPoll::begin(at(0), Duration::from_millis(500));
    assert_eq!(millis, 500);
    let PollNext::Done(ready) = wait.on_call(BITS, PollCall::Returned(libc::POLLOUT)) else {
        panic!("a call that returned ends the wait");
    };
    assert!(ready.writable() && !ready.readable());
}

#[test]
fn readability_arrives_once_the_peer_writes() {
    assert_eq!(LibcPoll::events(BITS, PollInterest::read()), libc::POLLIN);
    let ready = LibcPoll::classify(BITS, libc::POLLIN);
    assert!(ready.readable() && !ready.writable());
    let both = LibcPoll::classify(BITS, libc::POLLIN | libc::POLLOUT);
    assert!(both.readable() && both.writable());
    assert_eq!(
        LibcPoll::events(BITS, PollInterest::both()),
        libc::POLLIN | libc::POLLOUT
    );
    assert_eq!(LibcPoll::events(BITS, PollInterest::none()), 0);
}

#[test]
fn an_idle_socket_times_out_rather_than_faulting() {
    let (wait, _) = LibcPoll::begin(at(0), Duration::from_millis(20));
    assert!(matches!(
        wait.on_call(BITS, PollCall::Returned(0)),
        PollNext::Done(Readiness::TimedOut)
    ));
}

#[test]
fn a_dead_fd_faults_with_its_revents_in_the_message() {
    let Readiness::Fault(text) = LibcPoll::classify(BITS, libc::POLLNVAL) else {
        panic!("a dead descriptor must fault");
    };
    assert_eq!(text, "poll reported socket fault (revents=0x20)");
    let Readiness::Fault(text) = LibcPoll::classify(BITS, libc::POLLHUP | libc::POLLIN) else {
        panic!("a fault wins over readability");
    };
    assert!(text.contains("0x11"), "{text}");
    let (wait, _) = LibcPoll::begin(at(0), Duration::from_millis(20));
    assert!(matches!(
        wait.on_call(BITS, PollCall::Failed("bad".to_string())),
        PollNext::Failed(why) if why == "bad"
    ));
}

#[test]
fn a_signal_during_a_wait_resumes_instead_of_faulting() {
    let (wait, millis) = LibcPoll::begin(at(100), Duration::from_millis(300));
    assert_eq!(millis, 300);
    assert!(matches!(
        wait.on_call(BITS, PollCall::Interrupted(at(150))),
        PollNext::Again(250)
    ));
    assert!(matches!(
        wait.on_call(BITS, PollCall::Interrupted(at(390))),
        PollNext::Again(10)
    ));
    // A budget already spent is the same answer as a timeout.
    assert!(matches!(
        wait.on_call(BITS, PollCall::Interrupted(at(400))),
        PollNext::Done(Readiness::TimedOut)
    ));
}

#[test]
fn a_budget_is_whole_milliseconds_that_fit() {
    assert_eq!(LibcPoll::begin(at(0), Duration::from_micros(999)).1, 0);
    assert_eq!(LibcPoll::begin(at(0), Duration::from_micros(1999)).1, 1);
    assert_eq!(LibcPoll::begin(at(0), Duration::from_millis(1 << 40)).1, i32::MAX);
}

#[test]
fn the_bits_are_those_of_the_platform() {
    assert_eq!(
        BITS,
        PollBits {
            pollin: libc::POLLIN,
            pollout: libc::POLLOUT,
            pollerr: libc::POLLERR,
            pollhup: libc::POLLHUP,
            pollnval: libc::POLLNVAL,
        }
    );
}

#[test]
fn a_blocked_read_arms_readability_alone() {
    let mut link = TlsLink::new();
    assert_eq!(link.on_read::<&str>(Err(TlsFault::WantRead)), Err(LinkFault::WouldBlock));
    assert_eq!(link.read_want, Want::Read);
    assert_eq!(link.write_want, Want::Nothing);
    assert_eq!(link.poll_interest(true, false), PollInterest::read());
    assert_eq!(link.want_substitutions, 0);

    assert_eq!(link.on_read::<&str>(Err(TlsFault::WantWrite)), Err(LinkFault::WouldBlock));
    assert_eq!(link.poll_interest(true, false), PollInterest::write());
    assert_eq!(link.want_substitutions(), 1);
}

#[test]
fn an_orderly_peer_close_reads_as_end_of_stream() {
    let mut link = TlsLink::new();
    link.on_read::<&str>(Err(TlsFault::WantRead)).unwrap_err();
    assert_eq!(link.on_read(Err(TlsFault::ZeroReturn("closed"))), Ok(0));
    assert_eq!(link.read_want, Want::Nothing);
    assert_eq!(
        link.on_write(Err(TlsFault::ZeroReturn("closed"))),
        Err(LinkFault::Broken("closed"))
    );
}

#[test]
fn an_aborted_peer_reads_as_a_fault_rather_than_end_of_stream() {
    let mut link = TlsLink::new();
    assert_eq!(
        link.on_read(Err(TlsFault::Other("reset"))),
        Err(LinkFault::Broken("reset"))
    );
    assert_eq!(classify(TlsFault::Other(3)), (Want::Nothing, LinkFault::Broken(3)));
    assert_eq!(classify::<i32>(TlsFault::WantWrite), (Want::Write, LinkFault::WouldBlock));
}

#[test]
fn a_write_the_peer_will_not_read_blocks_and_resumes_with_the_same_bytes() {
    let mut link = TlsLink::new();
    assert_eq!(link.on_write::<&str>(Err(TlsFault::WantWrite)), Err(LinkFault::WouldBlock));
    assert_eq!(link.poll_interest(false, true), PollInterest::write());
    assert_eq!(link.on_write::<&str>(Ok(17)), Ok(17));
    assert_eq!(link.write_want, Want::Nothing);
    link.on_write::<&str>(Err(TlsFault::WantRead)).unwrap_err();
    assert_eq!(link.poll_interest(false, true), PollInterest::read());
}

#[test]
fn a_sessions_end_reports_its_substitution_count() {
    let mut link = TlsLink::new();
    let facts = link.teardown_facts(Some("127.0.0.1:9"));
    assert!(facts.contains("127.0.0.1:9"), "the peer must be named: {facts}");
    assert!(facts.contains("wsub=0"), "a settled session inverted nothing: {facts}");
    link.want_substitutions = 3;
    assert!(
        link.teardown_facts(None).contains("wsub=3"),
        "the line must report the live counter"
    );
    assert_eq!(link.teardown_facts(None), "session down to unknown peer — wsub=3");
    link.want_substitutions = u32::MAX;
    link.on_read::<&str>(Err(TlsFault::WantWrite)).unwrap_err();
    link.poll_interest(true, false);
    assert_eq!(link.want_substitutions, u32::MAX);
    assert!(link.buffers_plaintext());
}

#[test]
fn a_handshake_waits_on_the_direction_it_is_asked_for() {
    let handshake = Handshake::begin(at(1_000), Duration::from_millis(150));
    let step: Step = Err(TlsFault::WantRead);
    assert_eq!(
        handshake.on_step(step, at(1_050)),
        HandshakeNext::Wait {
            interest: PollInterest::read(),
            budget: Duration::from_millis(100),
        }
    );
    let step: Step = Err(TlsFault::WantWrite);
    assert_eq!(
        handshake.on_step(step, at(1_149)),
        HandshakeNext::Wait {
            interest: PollInterest::write(),
            budget: Duration::from_millis(1),
        }
    );
    let step: Step = Ok(());
    assert_eq!(handshake.on_step(step, at(9_999)), HandshakeNext::Up);
}

#[test]
fn a_peer_that_never_speaks_tls_is_bounded_by_the_handshake_timeout() {
    let handshake = Handshake::begin(at(1_000), Duration::from_millis(150));
    let step: Step = Err(TlsFault::WantRead);
    let HandshakeNext::Failed(err) = handshake.on_step(step, at(1_150)) else {
        panic!("a spent budget must not wait");
    };
    assert_eq!(
        err.kind(),
        FaultKind::TimedOut,
        "a silent peer is a timeout, not another error"
    );
    assert_eq!(
        err.text("10.0.0.1:9"),
        "TLS handshake to 10.0.0.1:9 did not complete within 150 ms"
    );
    assert_eq!(handshake.on_wait::<u8>(Ok(Readiness::TimedOut)), None);
}

#[test]
fn a_key_the_server_does_not_hold_fails_the_handshake() {
    let handshake = Handshake::begin(at(0), Duration::from_millis(150));
    let refused = HandshakeFailure { kind: None, detail: "bad mac".to_string() };
    let step: Step = Err(TlsFault::Other(refused));
    let HandshakeNext::Failed(err) = handshake.on_step(step, at(1)) else {
        panic!("wrong key must not connect");
    };
    assert!(
        err.text("p").contains("tls handshake"),
        "the failing stage must be named: {}",
        err.text("p")
    );
    assert_eq!(err.kind(), FaultKind::Unsorted);
    let closed = HandshakeFailure { kind: Some(9), detail: "eof".to_string() };
    let step: Step = Err(TlsFault::ZeroReturn(closed));
    let HandshakeNext::Failed(err) = handshake.on_step(step, at(1)) else {
        panic!("a closed stream must not connect");
    };
    assert_eq!(err.kind(), FaultKind::System(9));
}

#[test]
fn a_socket_that_dies_in_the_handshake_is_reported() {
    let handshake = Handshake::begin(at(0), Duration::from_millis(150));
    let err = handshake
        .on_wait::<u8>(Ok(Readiness::Fault("hup \"x\"".to_string())))
        .expect("a dead socket ends the handshake");
    assert_eq!(
        err.text("p"),
        format!(
            "socket fault during TLS handshake to p: {:?}",
            std::io::Error::other("hup \"x\"")
        )
    );
    assert_ne!(err.text("p"), "socket fault during TLS handshake to p: hup \"x\"");
    let err = handshake
        .on_wait::<u8>(Err("Os { code: 9 }".to_string()))
        .expect("a failed wait ends the handshake");
    assert_eq!(err.text("p"), "socket fault during TLS handshake to p: Os { code: 9 }");
    assert_eq!(err.kind(), FaultKind::Unsorted);
    assert_eq!(
        handshake.on_wait::<u8>(Ok(Readiness::Ready { readable: true, writable: false })),
        None
    );
}

#[test]
fn a_refused_connect_reports_the_tcp_stage_and_its_kind() {
    let err = ConnectError::Tcp { kind: 111, after_ms: 2, detail: "refused".to_string() };
    assert_eq!(err.kind(), FaultKind::System(111));
    assert_eq!(err.text("127.0.0.1:1"), "tcp connect to 127.0.0.1:1 after 2 ms: refused");
    let stages: [(ConnectError<i32>, &str); 4] = [
        (
            ConnectError::NonBlocking { kind: 1, detail: "x".to_string() },
            "set non-blocking: x",
        ),
        (ConnectError::Context { detail: "x".to_string() }, "tls client context: x"),
        (ConnectError::Session { detail: "x".to_string() }, "ssl session: x"),
        (ConnectError::Stream { detail: "x".to_string() }, "ssl stream: x"),
    ];
    for (err, text) in stages {
        assert_eq!(err.text("p"), text);
    }
}

#[test]
fn the_platform_answers_the_streamer_seam_and_connects() {
    let platform = LinkPlatform::new("pod-test", at(1_000));
    assert_eq!(platform.pod_id(), "pod-test");
    assert_eq!(platform.link_up(), Some(true));
    assert_eq!(platform.link_diag(), "link=os-managed");
    assert_eq!(platform.connect_timeout(), Duration::from_millis(300));
    assert_eq!(platform.handshake_timeout(), Duration::from_secs(1));
    assert_eq!(platform.now_secs(at(1_000)), 0);
    assert_eq!(platform.now_secs(at(3_999)), 2);
    assert_eq!(platform.now_secs(at(500)), 0);
    assert_eq!(platform.now_secs(Instant::last()), u64::MAX);
    let platform = platform.with_timeouts(Duration::from_millis(5), Duration::from_millis(6));
    assert_eq!(platform.connect_timeout(), Duration::from_millis(5));
    assert_eq!(platform.handshake_timeout(), Duration::from_millis(6));
    assert_eq!(platform.pod_id(), "pod-test");
}
