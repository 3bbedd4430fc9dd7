//! Arguments of the tool, and the commands they make.
//!
//! Nothing here touches a device: an argument is refused before any port is
//! looked at.

use vstd::prelude::*;

use crate::protocol::{self, passphrase_field, ssid_field, Command};
use crate::text::{self, chars_of, push_decimal, push_text, same_text, utf8_len};

verus! {

/// Bytes an SSID may take.
pub const SSID_LIMIT: usize = 32;

/// Bytes a passphrase may take.
pub const PASSPHRASE_LIMIT: usize = 64;

/// Why the arguments make no command.
#[derive(Debug, PartialEq, Eq)]
pub enum ValidationError {
    /// A required input is missing from both its flag and its variable.
    Missing {
        /// What is missing.
        input: &'static str,
        /// The flag that supplies it.
        flag: &'static str,
        /// The environment variable that supplies it.
        env: &'static str,
    },
    /// The SSID is empty.
    EmptySsid,
    /// The SSID takes more bytes than the protocol carries.
    SsidTooLong {
        /// Bytes it takes.
        bytes: usize,
    },
    /// The passphrase takes more bytes than the protocol carries.
    PassphraseTooLong {
        /// Bytes it takes.
        bytes: usize,
    },
    /// A field does not hold what it should.
    InvalidField {
        /// The field.
        field: &'static str,
        /// What it should hold.
        expected: &'static str,
    },
}

/// The refusal as operators read it.
pub open spec fn error_text(e: ValidationError) -> Seq<char> {
    match e {
        ValidationError::Missing { input, flag, env } => "missing "@ + input@ + "; supply --"@
            + flag@ + " or $"@ + env@,
        ValidationError::EmptySsid => "SSID must not be empty"@,
        ValidationError::SsidTooLong { bytes } => "SSID is "@ + text::decimal(bytes as nat)
            + " bytes; protocol limit is 32 bytes"@,
        ValidationError::PassphraseTooLong { bytes } => "passphrase is "@ + text::decimal(
            bytes as nat,
        ) + " bytes; protocol limit is 64 bytes"@,
        ValidationError::InvalidField { field, expected } => field@ + " is not a valid "@
            + expected@,
    }
}

impl ValidationError {
    /// The refusal as operators read it.
    pub fn text(&self) -> (r: String)
        ensures
            r@ == error_text(*self),
    {
        let mut out = String::new();
        match self {
            ValidationError::Missing { input, flag, env } => {
                push_text(&mut out, "missing ");
                push_text(&mut out, input);
                push_text(&mut out, "; supply --");
                push_text(&mut out, flag);
                push_text(&mut out, " or $");
                push_text(&mut out, env);
            },
            ValidationError::EmptySsid => {
                push_text(&mut out, "SSID must not be empty");
            },
            ValidationError::SsidTooLong { bytes } => {
                push_text(&mut out, "SSID is ");
                push_decimal(&mut out, *bytes as u64);
                push_text(&mut out, " bytes; protocol limit is 32 bytes");
            },
            ValidationError::PassphraseTooLong { bytes } => {
                push_text(&mut out, "passphrase is ");
                push_decimal(&mut out, *bytes as u64);
                push_text(&mut out, " bytes; protocol limit is 64 bytes");
            },
            ValidationError::InvalidField { field, expected } => {
                push_text(&mut out, field);
                push_text(&mut out, " is not a valid ");
                push_text(&mut out, expected);
            },
        }
        assert(out@ =~= error_text(*self));
        out
    }
}

// ---- numbers and addresses ----

/// `c` is a decimal digit.
pub open spec fn is_digit(c: char) -> bool {
    '0' <= c <= '9'
}

/// The number that decimal digits write.
pub open spec fn digits_value(digits: Seq<char>) -> nat
    decreases digits.len(),
{
    if digits.len() == 0 {
        0
    } else {
        digits_value(digits.drop_last()) * 10 + (digits.last() as nat - '0' as nat) as nat
    }
}

/// Every character is a digit, and there is one.
pub open spec fn is_number(digits: Seq<char>) -> bool {
    &&& digits.len() > 0
    &&& forall|i: int| 0 <= i < digits.len() ==> is_digit(#[trigger] digits[i])
}

/// The number a text holds: digits, with or without a plus sign in front.
pub open spec fn unsigned(text: Seq<char>) -> Option<nat> {
    let digits = if text.len() > 0 && text[0] == '+' {
        text.skip(1)
    } else {
        text
    };
    if is_number(digits) {
        Some(digits_value(digits))
    } else {
        None
    }
}

/// The number a text holds, where it is no larger than `limit`.
pub open spec fn unsigned_within(text: Seq<char>, limit: nat) -> Option<nat> {
    match unsigned(text) {
        Some(n) if n <= limit => Some(n),
        _ => None,
    }
}

/// Four octets in dotted notation.
pub open spec fn dotted(octets: Seq<u8>) -> Seq<char> {
    text::decimal(octets[0] as nat) + "."@ + text::decimal(octets[1] as nat) + "."@
        + text::decimal(octets[2] as nat) + "."@ + text::decimal(octets[3] as nat)
}

/// `text` is an IPv4 address in dotted notation: four octets in decimal, without
/// leading zeros.
pub open spec fn is_dotted(text: Seq<char>) -> bool {
    exists|octets: [u8; 4]| text == #[trigger] dotted(octets@)
}

/// The digits of a number in decimal write that number.
proof fn decimal_writes_its_number(n: nat)
    ensures
        is_number(text::decimal(n)),
        digits_value(text::decimal(n)) == n,
    decreases n,
{
    let digits = text::decimal(n);
    text::numeral_is_not_empty(n, 10);
    if n < 10 {
        assert(digits =~= seq![text::digit_char(n)]);
        assert(digits.drop_last() =~= Seq::<char>::empty());
        assert(digits_value(Seq::<char>::empty()) == 0);
        assert(digits.last() as nat == 48 + n);
    } else {
        decimal_writes_its_number(n / 10);
        let front = text::decimal(n / 10);
        assert(digits =~= front.push(text::digit_char(n % 10)));
        assert(digits.drop_last() =~= front);
        assert(digits.last() as nat == 48 + n % 10);
        assert forall|i: int| 0 <= i < digits.len() implies is_digit(#[trigger] digits[i]) by {
            if i < front.len() {
                assert(digits[i] == front[i]);
            }
        }
    }
}

/// The digits of `chars` from `at` on: the number they write, or `limit + 1` where
/// it is larger than `limit`, and where they end.
fn read_digits(chars: &Vec<char>, at: usize, limit: u64) -> (r: (u64, usize))
    requires
        at <= chars.len(),
        limit <= u32::MAX,
    ensures
        at <= r.1 <= chars.len(),
        forall|i: int| at <= i < r.1 ==> is_digit(#[trigger] chars@[i]),
        r.1 < chars.len() ==> !is_digit(chars@[r.1 as int]),
        ({
            let n = digits_value(chars@.subrange(at as int, r.1 as int));
            r.0 == if n <= limit {
                n
            } else {
                limit as nat + 1
            }
        }),
{
    let mut value: u64 = 0;
    let mut end: usize = at;
    assert(chars@.subrange(at as int, at as int) =~= Seq::<char>::empty());
    while end < chars.len() && '0' <= chars[end] && chars[end] <= '9'
        invariant
            at <= end <= chars.len(),
            limit <= u32::MAX,
            forall|i: int| at <= i < end ==> is_digit(#[trigger] chars@[i]),
            ({
                let n = digits_value(chars@.subrange(at as int, end as int));
                value == if n <= limit {
                    n
                } else {
                    limit as nat + 1
                }
            }),
        decreases chars.len() - end,
    {
        let d: u64 = chars[end] as u64 - '0' as u64;
        proof {
            let longer = chars@.subrange(at as int, end + 1);
            assert(longer.drop_last() =~= chars@.subrange(at as int, end as int));
            assert(longer.last() == chars@[end as int]);
        }
        if value <= limit {
            value = value * 10 + d;
            if value > limit {
                value = limit + 1;
            }
        }
        end = end + 1;
    }
    (value, end)
}

/// The number `s` holds, where it is no larger than `limit`.
fn parse_unsigned(s: &str, limit: u64) -> (r: Option<u64>)
    requires
        limit <= u32::MAX,
    ensures
        match unsigned_within(s@, limit as nat) {
            Some(n) => r == Some(n as u64),
            None => r is None,
        },
{
    let chars = chars_of(s);
    let from: usize = if chars.len() > 0 && chars[0] == '+' {
        1
    } else {
        0
    };
    let (value, end) = read_digits(&chars, from, limit);
    proof {
        let digits = if chars@.len() > 0 && chars@[0] == '+' {
            chars@.skip(1)
        } else {
            chars@
        };
        assert(digits =~= chars@.subrange(from as int, chars@.len() as int));
        if end == chars.len() {
            assert forall|i: int| 0 <= i < digits.len() implies is_digit(#[trigger] digits[i]) by {
                assert(digits[i] == chars@[from + i]);
            }
        } else {
            assert(digits[end - from] == chars@[end as int]);
        }
    }
    if end == from || end < chars.len() || value > limit {
        None
    } else {
        Some(value)
    }
}

/// The octet written in `chars` at `at`, and where it ends.
fn read_octet(chars: &Vec<char>, at: usize) -> (r: Option<(u8, usize)>)
    requires
        at <= chars.len(),
    ensures
        r matches Some((_, end)) ==> at <= end <= chars.len(),
        forall|n: u8, rest: Seq<char>|
            chars@.skip(at as int) == #[trigger] (text::decimal(n as nat) + rest) && (rest.len() > 0
                ==> !is_digit(rest[0])) ==> r == Some(
                (n, (at + text::decimal(n as nat).len()) as usize),
            ),
{
    let (value, end) = read_digits(chars, at, 255);
    proof {
        assert forall|n: u8, rest: Seq<char>|
            chars@.skip(at as int) == #[trigger] (text::decimal(n as nat) + rest) && (rest.len() > 0
                ==> !is_digit(rest[0])) implies value == n && end == at + text::decimal(
            n as nat,
        ).len() by {
            let digits = text::decimal(n as nat);
            let tail = chars@.skip(at as int);
            decimal_writes_its_number(n as nat);
            assert forall|i: int| 0 <= i < digits.len() implies chars@[at + i] == #[trigger] digits[i] by {
                assert(tail[i] == digits[i]);
            }
            if end < at + digits.len() {
                assert(chars@[end as int] == digits[end - at]);
            }
            if end > at + digits.len() {
                assert(tail[digits.len() as int] == rest[0]);
                assert(chars@[at + digits.len()] == rest[0]);
            }
            assert(chars@.subrange(at as int, end as int) =~= digits);
        }
    }
    if value > 255 {
        None
    } else {
        Some((value as u8, end))
    }
}

/// The octet written in `chars` at `at`, which a dot must follow, and where the
/// next one starts.
fn read_octet_and_dot(chars: &Vec<char>, at: usize) -> (r: Option<(u8, usize)>)
    requires
        at <= chars.len(),
    ensures
        r matches Some((_, next)) ==> at <= next <= chars.len(),
        forall|n: u8, rest: Seq<char>|
            chars@.skip(at as int) == #[trigger] (text::decimal(n as nat) + ("."@ + rest)) ==> r
                == Some((n, (at + text::decimal(n as nat).len() + 1) as usize)),
{
    let read = read_octet(chars, at);
    proof {
        reveal_strlit(".");
        assert forall|n: u8, rest: Seq<char>|
            chars@.skip(at as int) == #[trigger] (text::decimal(n as nat) + ("."@ + rest)) implies {
            &&& read == Some((n, (at + text::decimal(n as nat).len()) as usize))
            &&& at + text::decimal(n as nat).len() < chars.len()
            &&& chars@[(at + text::decimal(n as nat).len()) as int] == '.'
        } by {
            let dot_and_rest = "."@ + rest;
            assert(dot_and_rest[0] == '.');
            let whole = text::decimal(n as nat) + dot_and_rest;
            assert(chars@.skip(at as int).len() == whole.len());
            assert(chars@.skip(at as int)[text::decimal(n as nat).len() as int] == '.');
        }
    }
    match read {
        Some((octet, end)) => {
            if end < chars.len() && chars[end] == '.' {
                Some((octet, end + 1))
            } else {
                None
            }
        },
        None => None,
    }
}

/// Appends four octets in dotted notation.
pub(crate) fn push_dotted(out: &mut String, octets: &[u8; 4])
    ensures
        final(out)@ == old(out)@ + dotted(octets@),
{
    push_decimal(out, octets[0] as u64);
    push_text(out, ".");
    push_decimal(out, octets[1] as u64);
    push_text(out, ".");
    push_decimal(out, octets[2] as u64);
    push_text(out, ".");
    push_decimal(out, octets[3] as u64);
    assert(out@ =~= old(out)@ + dotted(octets@));
}

/// How an address falls into its octets.
proof fn dotted_parts(octets: Seq<u8>)
    ensures
        ({
            let a = text::decimal(octets[0] as nat);
            let b = text::decimal(octets[1] as nat);
            let c = text::decimal(octets[2] as nat);
            let d = text::decimal(octets[3] as nat);
            let whole = dotted(octets);
            let second = (a.len() + 1) as int;
            let third = (second + b.len() + 1) as int;
            let fourth = (third + c.len() + 1) as int;
            &&& whole.skip(0) == a + ("."@ + (b + "."@ + c + "."@ + d))
            &&& whole.skip(second) == b + ("."@ + (c + "."@ + d))
            &&& whole.skip(third) == c + ("."@ + d)
            &&& whole.skip(fourth) == d + seq![]
            &&& whole.len() == fourth + d.len()
        }),
{
    reveal_strlit(".");
    let a = text::decimal(octets[0] as nat);
    let b = text::decimal(octets[1] as nat);
    let c = text::decimal(octets[2] as nat);
    let d = text::decimal(octets[3] as nat);
    let whole = dotted(octets);
    let second = (a.len() + 1) as int;
    let third = (second + b.len() + 1) as int;
    let fourth = (third + c.len() + 1) as int;
    assert(whole.skip(0) =~= a + ("."@ + (b + "."@ + c + "."@ + d)));
    assert(whole.skip(second) =~= b + ("."@ + (c + "."@ + d)));
    assert(whole.skip(third) =~= c + ("."@ + d));
    assert(whole.skip(fourth) =~= d + seq![]);
}

/// The octets of an address, if `chars` is one, and others besides.
fn read_address(chars: &Vec<char>) -> (r: Option<[u8; 4]>)
    ensures
        forall|octets: [u8; 4]| chars@ == #[trigger] dotted(octets@) ==> r == Some(octets),
{
    let first = read_octet_and_dot(chars, 0);
    proof {
        assert forall|octets: [u8; 4]| chars@ == #[trigger] dotted(octets@) implies first == Some(
            (octets@[0], (text::decimal(octets@[0] as nat).len() + 1) as usize),
        ) by {
            dotted_parts(octets@);
        }
    }
    let (a, at) = match first {
        Some(read) => read,
        None => {
            return None;
        },
    };
    let second = read_octet_and_dot(chars, at);
    proof {
        assert forall|octets: [u8; 4]| chars@ == #[trigger] dotted(octets@) implies second == Some(
            (octets@[1], (at + text::decimal(octets@[1] as nat).len() + 1) as usize),
        ) by {
            dotted_parts(octets@);
        }
    }
    let (b, at) = match second {
        Some(read) => read,
        None => {
            return None;
        },
    };
    let third = read_octet_and_dot(chars, at);
    proof {
        assert forall|octets: [u8; 4]| chars@ == #[trigger] dotted(octets@) implies third == Some(
            (octets@[2], (at + text::decimal(octets@[2] as nat).len() + 1) as usize),
        ) by {
            dotted_parts(octets@);
        }
    }
    let (c, at) = match third {
        Some(read) => read,
        None => {
            return None;
        },
    };
    let fourth = read_octet(chars, at);
    proof {
        assert forall|octets: [u8; 4]| chars@ == #[trigger] dotted(octets@) implies fourth == Some(
            (octets@[3], chars.len()),
        ) by {
            dotted_parts(octets@);
        }
    }
    let (d, end) = match fourth {
        Some(read) => read,
        None => {
            return None;
        },
    };
    if end < chars.len() {
        return None;
    }
    let found: [u8; 4] = [a, b, c, d];
    proof {
        assert forall|octets: [u8; 4]| chars@ == #[trigger] dotted(octets@) implies found
            == octets by {
            assert(found@ =~= octets@);
        }
    }
    Some(found)
}

/// Parses an IPv4 address in dotted notation into its octets.
pub fn parse_ipv4(s: &str, field: &'static str) -> (r: Result<[u8; 4], ValidationError>)
    ensures
        match r {
            Ok(octets) => s@ == dotted(octets@),
            Err(e) => !is_dotted(s@) && e == (ValidationError::InvalidField {
                field,
                expected: "dotted IPv4",
            }),
        },
{
    let chars = chars_of(s);
    if let Some(octets) = read_address(&chars) {
        let mut back = String::new();
        push_dotted(&mut back, &octets);
        if same_text(back.as_str(), s) {
            assert(back@ =~= dotted(octets@));
            return Ok(octets);
        }
        assert(back@ =~= dotted(octets@));
    }
    Err(ValidationError::InvalidField { field, expected: "dotted IPv4" })
}

/// Parses a port number.
pub fn parse_port(s: &str, field: &'static str) -> (r: Result<u16, ValidationError>)
    ensures
        match unsigned_within(s@, 65535) {
            Some(n) => r == Ok::<u16, ValidationError>(n as u16),
            None => r == Err::<u16, ValidationError>(
                ValidationError::InvalidField { field, expected: "port (0–65535)" },
            ),
        },
{
    match parse_unsigned(s, 65535) {
        Some(n) => Ok(n as u16),
        None => Err(ValidationError::InvalidField { field, expected: "port (0–65535)" }),
    }
}

/// An address is written in one way only.
pub proof fn an_address_is_written_one_way(a: [u8; 4], b: [u8; 4])
    requires
        dotted(a@) == dotted(b@),
    ensures
        a == b,
{
    dotted_parts(a@);
    dotted_parts(b@);
    let whole = dotted(a@);
    reveal_strlit(".");
    same_number_leads(
        a@[0],
        b@[0],
        "."@ + (text::decimal(a@[1] as nat) + "."@ + text::decimal(a@[2] as nat) + "."@
            + text::decimal(a@[3] as nat)),
        "."@ + (text::decimal(b@[1] as nat) + "."@ + text::decimal(b@[2] as nat) + "."@
            + text::decimal(b@[3] as nat)),
    );
    same_number_leads(
        a@[1],
        b@[1],
        "."@ + (text::decimal(a@[2] as nat) + "."@ + text::decimal(a@[3] as nat)),
        "."@ + (text::decimal(b@[2] as nat) + "."@ + text::decimal(b@[3] as nat)),
    );
    same_number_leads(
        a@[2],
        b@[2],
        "."@ + text::decimal(a@[3] as nat),
        "."@ + text::decimal(b@[3] as nat),
    );
    same_number_leads(a@[3], b@[3], seq![], seq![]);
    assert(a@ =~= b@);
}

/// Two texts that are the same start with the same number.
proof fn same_number_leads(a: u8, b: u8, after_a: Seq<char>, after_b: Seq<char>)
    requires
        text::decimal(a as nat) + after_a == text::decimal(b as nat) + after_b,
        after_a.len() > 0 ==> !is_digit(after_a[0]),
        after_b.len() > 0 ==> !is_digit(after_b[0]),
    ensures
        a == b,
{
    let left = text::decimal(a as nat);
    let right = text::decimal(b as nat);
    let whole = left + after_a;
    decimal_writes_its_number(a as nat);
    decimal_writes_its_number(b as nat);
    if left.len() < right.len() {
        assert(whole[left.len() as int] == after_a[0]);
        assert(whole[left.len() as int] == right[left.len() as int]);
    }
    if right.len() < left.len() {
        assert((right + after_b)[right.len() as int] == after_b[0]);
        assert(whole[right.len() as int] == left[right.len() as int]);
    }
    assert(left =~= whole.take(left.len() as int));
    assert(right =~= (right + after_b).take(right.len() as int));
}

/// Text that writes an address is read back as that address, and a number in
/// decimal as that number.
pub proof fn what_is_written_is_read(octets: [u8; 4], n: nat)
    ensures
        is_dotted(dotted(octets@)),
        unsigned(text::decimal(n)) == Some(n),
{
    decimal_writes_its_number(n);
    let digits = text::decimal(n);
    assert(is_digit(digits[0]));
}

// ---- arguments ----

/// Arguments that name a WiFi network.
#[derive(Debug)]
pub struct WifiArgs {
    /// Network name.
    pub ssid: Option<String>,
    /// Network key.
    pub passphrase: Option<String>,
}

/// Arguments that name the network peer.
#[derive(Debug)]
pub struct PeerArgs {
    /// Peer address.
    pub host: Option<String>,
    /// UDP echo port.
    pub udp_port: Option<String>,
    /// TCP echo port.
    pub tcp_port: Option<String>,
    /// TLS endpoint address.
    pub tls_host: Option<String>,
    /// TLS endpoint port.
    pub tls_port: Option<String>,
    /// Inbound-frames port.
    pub inbound_frames_port: Option<String>,
    /// Backpressure-source port.
    pub backpressure_port: Option<String>,
    /// Poll-readiness port.
    pub poll_readiness_port: Option<String>,
    /// Real-time duplex port.
    pub rtd_port: Option<String>,
}

/// Arguments that name the audio receiver.
#[derive(Debug)]
pub struct AudioArgs {
    /// Receiver address.
    pub host: Option<String>,
    /// Receiver port.
    pub audio_port: Option<String>,
}

/// The argument that gives the voice gate's threshold.
#[derive(Debug, Clone, Copy, PartialEq, Eq, Structural)]
pub enum ThresholdInput {
    /// Not supplied.
    Missing,
    /// Supplied, and no number.
    Unreadable,
    /// The bit pattern of the single-precision number supplied.
    Number(u32),
}

/// What an operator asks of a pod.
#[derive(Debug)]
pub enum Request {
    /// Store WiFi credentials.
    ProvisionWifi(WifiArgs),
    /// Store the network peer.
    ProvisionPeer(PeerArgs),
    /// Store the audio receiver.
    ProvisionAudio(AudioArgs),
    /// Store the voice gate's threshold.
    SetVadThreshold(ThresholdInput),
    /// Store the voice gate's hangover.
    SetVadHangover(Option<String>),
    /// Use WiFi credentials until the next reboot.
    SetTempWifi(WifiArgs),
    /// Go back to the stored WiFi credentials.
    ClearTempWifi,
}

/// Why WiFi arguments are refused, the first reason of several.
pub open spec fn wifi_refusal(args: WifiArgs) -> Option<ValidationError> {
    match (args.ssid, args.passphrase) {
        (None, _) => Some(
            ValidationError::Missing { input: "SSID", flag: "ssid", env: "PODCTL_WIFI_SSID" },
        ),
        (_, None) => Some(
            ValidationError::Missing {
                input: "passphrase",
                flag: "passphrase",
                env: "PODCTL_WIFI_PASS",
            },
        ),
        (Some(ssid), Some(passphrase)) => if ssid@.len() == 0 {
            Some(ValidationError::EmptySsid)
        } else if text::byte_len(ssid@) > SSID_LIMIT {
            Some(ValidationError::SsidTooLong { bytes: text::byte_len(ssid@) as usize })
        } else if text::byte_len(passphrase@) > PASSPHRASE_LIMIT {
            Some(
                ValidationError::PassphraseTooLong { bytes: text::byte_len(passphrase@) as usize },
            )
        } else {
            None
        },
    }
}

/// What is missing of a peer, the first of several.
pub open spec fn peer_missing(args: PeerArgs) -> Option<ValidationError> {
    if args.host is None {
        Some(ValidationError::Missing { input: "host", flag: "host", env: "PODCTL_PEER_HOST" })
    } else if args.udp_port is None {
        Some(ValidationError::Missing { input: "udp-port", flag: "udp-port", env: "PODCTL_UDP_PORT" })
    } else if args.tcp_port is None {
        Some(ValidationError::Missing { input: "tcp-port", flag: "tcp-port", env: "PODCTL_TCP_PORT" })
    } else if args.tls_host is None {
        Some(ValidationError::Missing { input: "tls-host", flag: "tls-host", env: "PODCTL_TLS_HOST" })
    } else if args.tls_port is None {
        Some(ValidationError::Missing { input: "tls-port", flag: "tls-port", env: "PODCTL_TLS_PORT" })
    } else if args.inbound_frames_port is None {
        Some(ValidationError::Missing { input: "inbound-frames-port", flag: "inbound-frames-port", env: "PODCTL_INBOUND_FRAMES_PORT" })
    } else if args.backpressure_port is None {
        Some(ValidationError::Missing { input: "backpressure-port", flag: "backpressure-port", env: "PODCTL_BACKPRESSURE_PORT" })
    } else if args.poll_readiness_port is None {
        Some(ValidationError::Missing { input: "poll-readiness-port", flag: "poll-readiness-port", env: "PODCTL_POLL_READINESS_PORT" })
    } else if args.rtd_port is None {
        Some(ValidationError::Missing { input: "rtd-port", flag: "rtd-port", env: "PODCTL_RTD_PORT" })
    } else {
        None
    }
}

/// The refusal of `text` where it is no address.
pub open spec fn address_refusal(text: Seq<char>, field: &'static str) -> Option<ValidationError> {
    if is_dotted(text) {
        None
    } else {
        Some(ValidationError::InvalidField { field, expected: "dotted IPv4" })
    }
}

/// The refusal of `text` where it is no port.
pub open spec fn port_refusal(text: Seq<char>, field: &'static str) -> Option<ValidationError> {
    match unsigned_within(text, 65535) {
        Some(_) => None,
        None => Some(ValidationError::InvalidField { field, expected: "port (0–65535)" }),
    }
}

/// The first refusal of two.
pub open spec fn or_else(
    first: Option<ValidationError>,
    second: Option<ValidationError>,
) -> Option<ValidationError> {
    match first {
        Some(_) => first,
        None => second,
    }
}

/// What of a peer, with everything supplied, cannot be read, the first of several.
pub open spec fn peer_unreadable(args: PeerArgs) -> Option<ValidationError> {
    or_else(address_refusal(args.host->0@, "host"),
    or_else(port_refusal(args.udp_port->0@, "udp-port"),
    or_else(port_refusal(args.tcp_port->0@, "tcp-port"),
    or_else(address_refusal(args.tls_host->0@, "tls-host"),
    or_else(port_refusal(args.tls_port->0@, "tls-port"),
    or_else(port_refusal(args.inbound_frames_port->0@, "inbound-frames-port"),
    or_else(port_refusal(args.backpressure_port->0@, "backpressure-port"),
    or_else(port_refusal(args.poll_readiness_port->0@, "poll-readiness-port"),
    port_refusal(args.rtd_port->0@, "rtd-port")))))))))
}

/// Why peer arguments are refused: everything is looked for before anything is
/// read.
pub open spec fn peer_refusal(args: PeerArgs) -> Option<ValidationError> {
    or_else(peer_missing(args), peer_unreadable(args))
}

/// Why audio arguments are refused.
pub open spec fn audio_refusal(args: AudioArgs) -> Option<ValidationError> {
    if args.host is None {
        Some(ValidationError::Missing { input: "host", flag: "host", env: "PODCTL_AUDIO_HOST" })
    } else if args.audio_port is None {
        Some(
            ValidationError::Missing {
                input: "audio-port",
                flag: "audio-port",
                env: "PODCTL_AUDIO_PORT",
            },
        )
    } else {
        or_else(
            address_refusal(args.host->0@, "host"),
            port_refusal(args.audio_port->0@, "audio-port"),
        )
    }
}

/// The single-precision number with this bit pattern is finite.
pub open spec fn is_finite(bits: u32) -> bool {
    bits & 0x7f80_0000 != 0x7f80_0000
}

/// The finite number with this bit pattern lies below zero: it has the sign bit, and
/// is not the zero that has it.
pub open spec fn is_below_zero(bits: u32) -> bool {
    bits > 0x8000_0000
}

/// Why a threshold is refused.
pub open spec fn threshold_refusal(threshold: ThresholdInput) -> Option<ValidationError> {
    match threshold {
        ThresholdInput::Missing => Some(
            ValidationError::Missing {
                input: "threshold",
                flag: "threshold",
                env: "PODCTL_VAD_THRESHOLD",
            },
        ),
        ThresholdInput::Number(bits) if is_finite(bits) && !is_below_zero(bits) => None,
        _ => Some(
            ValidationError::InvalidField {
                field: "threshold",
                expected: "non-negative finite float",
            },
        ),
    }
}

/// Why a hangover is refused.
pub open spec fn hangover_refusal(hangover_ms: Option<String>) -> Option<ValidationError> {
    match hangover_ms {
        None => Some(
            ValidationError::Missing {
                input: "hangover_ms",
                flag: "hangover-ms",
                env: "PODCTL_VAD_HANGOVER_MS",
            },
        ),
        Some(text) => match unsigned_within(text@, u32::MAX as nat) {
            Some(_) => None,
            None => Some(
                ValidationError::InvalidField {
                    field: "hangover_ms",
                    expected: "non-negative integer milliseconds (u32)",
                },
            ),
        },
    }
}

/// Why a request makes no command.
pub open spec fn refusal(request: Request) -> Option<ValidationError> {
    match request {
        Request::ProvisionWifi(args) => wifi_refusal(args),
        Request::ProvisionPeer(args) => peer_refusal(args),
        Request::ProvisionAudio(args) => audio_refusal(args),
        Request::SetVadThreshold(threshold) => threshold_refusal(threshold),
        Request::SetVadHangover(hangover_ms) => hangover_refusal(hangover_ms),
        Request::SetTempWifi(args) => wifi_refusal(args),
        Request::ClearTempWifi => None,
    }
}

/// `command` is what `request` asks for, where nothing is wrong with it.
pub open spec fn asks_for(request: Request, command: Command) -> bool {
    match request {
        Request::ProvisionWifi(args) => match command {
            Command::ProvisionWifi { ssid, passphrase } => {
                &&& protocol::ssid_text(ssid) == args.ssid->0@
                &&& protocol::passphrase_text(passphrase) == args.passphrase->0@
            },
            _ => false,
        },
        Request::ProvisionPeer(args) => match command {
            Command::ProvisionPeer {
                host,
                udp_port,
                tcp_port,
                tls_host,
                tls_port,
                inbound_frames_port,
                backpressure_port,
                poll_readiness_port,
                rtd_port,
            } => {
                &&& dotted(host@) == args.host->0@
                &&& unsigned(args.udp_port->0@) == Some(udp_port as nat)
                &&& unsigned(args.tcp_port->0@) == Some(tcp_port as nat)
                &&& dotted(tls_host@) == args.tls_host->0@
                &&& unsigned(args.tls_port->0@) == Some(tls_port as nat)
                &&& unsigned(args.inbound_frames_port->0@) == Some(inbound_frames_port as nat)
                &&& unsigned(args.backpressure_port->0@) == Some(backpressure_port as nat)
                &&& unsigned(args.poll_readiness_port->0@) == Some(poll_readiness_port as nat)
                &&& unsigned(args.rtd_port->0@) == Some(rtd_port as nat)
            },
            _ => false,
        },
        Request::ProvisionAudio(args) => match command {
            Command::ProvisionAudio { host, port } => {
                &&& dotted(host@) == args.host->0@
                &&& unsigned(args.audio_port->0@) == Some(port as nat)
            },
            _ => false,
        },
        Request::SetVadThreshold(threshold) => command == Command::SetVadThreshold {
            threshold_bits: threshold->Number_0,
        },
        Request::SetVadHangover(hangover_ms) => match command {
            Command::SetVadHangover { hangover_ms: ms } => unsigned(hangover_ms->0@) == Some(
                ms as nat,
            ),
            _ => false,
        },
        Request::SetTempWifi(args) => match command {
            Command::SetTemporaryWifiConfig { ssid, passphrase } => {
                &&& protocol::ssid_text(ssid) == args.ssid->0@
                &&& protocol::passphrase_text(passphrase) == args.passphrase->0@
            },
            _ => false,
        },
        Request::ClearTempWifi => command == Command::ClearTemporaryWifiConfig,
    }
}

/// `made` is what becomes of `request`: its command where nothing is wrong with it,
/// and otherwise what is wrong.
pub open spec fn is_made_of(request: Request, made: Result<Command, ValidationError>) -> bool {
    match made {
        Ok(command) => refusal(request) is None && asks_for(request, command),
        Err(e) => refusal(request) == Some(e),
    }
}

/// The fields of a WiFi command.
fn wifi_fields(args: &WifiArgs) -> (r: Result<
    (heapless::String<32>, heapless::String<64>),
    ValidationError,
>)
    ensures
        match r {
            Ok((ssid, passphrase)) => {
                &&& wifi_refusal(*args) is None
                &&& protocol::ssid_text(ssid) == args.ssid->0@
                &&& protocol::passphrase_text(passphrase) == args.passphrase->0@
            },
            Err(e) => wifi_refusal(*args) == Some(e),
        },
{
    let ssid = match &args.ssid {
        Some(ssid) => ssid.as_str(),
        None => {
            return Err(
                ValidationError::Missing { input: "SSID", flag: "ssid", env: "PODCTL_WIFI_SSID" },
            );
        },
    };
    let passphrase = match &args.passphrase {
        Some(passphrase) => passphrase.as_str(),
        None => {
            return Err(
                ValidationError::Missing {
                    input: "passphrase",
                    flag: "passphrase",
                    env: "PODCTL_WIFI_PASS",
                },
            );
        },
    };
    if chars_of(ssid).len() == 0 {
        return Err(ValidationError::EmptySsid);
    }
    let ssid_field = match ssid_field(ssid) {
        Ok(field) => field,
        Err(_) => {
            return Err(ValidationError::SsidTooLong { bytes: utf8_len(ssid) });
        },
    };
    match passphrase_field(passphrase) {
        Ok(field) => Ok((ssid_field, field)),
        Err(_) => Err(ValidationError::PassphraseTooLong { bytes: utf8_len(passphrase) }),
    }
}

/// The command that stores WiFi credentials.
pub fn validate_wifi(args: WifiArgs) -> (r: Result<Command, ValidationError>)
    ensures
        is_made_of(Request::ProvisionWifi(args), r),
{
    match wifi_fields(&args) {
        Ok((ssid, passphrase)) => Ok(Command::ProvisionWifi { ssid, passphrase }),
        Err(e) => Err(e),
    }
}

/// The command that uses WiFi credentials until the next reboot. The rules are those
/// of [`validate_wifi`].
pub fn validate_set_temp_wifi(args: WifiArgs) -> (r: Result<Command, ValidationError>)
    ensures
        is_made_of(Request::SetTempWifi(args), r),
{
    match wifi_fields(&args) {
        Ok((ssid, passphrase)) => Ok(Command::SetTemporaryWifiConfig { ssid, passphrase }),
        Err(e) => Err(e),
    }
}

/// A required input.
fn required<'a>(
    value: &'a Option<String>,
    input: &'static str,
    flag: &'static str,
    env: &'static str,
) -> (r: Result<&'a str, ValidationError>)
    ensures
        match value {
            Some(text) => r matches Ok(found) && found@ == text@,
            None => r == Err::<&str, ValidationError>(
                ValidationError::Missing { input, flag, env },
            ),
        },
{
    match value {
        Some(text) => Ok(text.as_str()),
        None => Err(ValidationError::Missing { input, flag, env }),
    }
}

/// The command that stores the network peer.
pub fn validate_peer(args: PeerArgs) -> (r: Result<Command, ValidationError>)
    ensures
        is_made_of(Request::ProvisionPeer(args), r),
{
    let host_text = match required(&args.host, "host", "host", "PODCTL_PEER_HOST") {
        Ok(text) => text,
        Err(e) => {
            return Err(e);
        },
    };
    let udp_port_text = match required(&args.udp_port, "udp-port", "udp-port", "PODCTL_UDP_PORT") {
        Ok(text) => text,
        Err(e) => {
            return Err(e);
        },
    };
    let tcp_port_text = match required(&args.tcp_port, "tcp-port", "tcp-port", "PODCTL_TCP_PORT") {
        Ok(text) => text,
        Err(e) => {
            return Err(e);
        },
    };
    let tls_host_text = match required(&args.tls_host, "tls-host", "tls-host", "PODCTL_TLS_HOST") {
        Ok(text) => text,
        Err(e) => {
            return Err(e);
        },
    };
    let tls_port_text = match required(&args.tls_port, "tls-port", "tls-port", "PODCTL_TLS_PORT") {
        Ok(text) => text,
        Err(e) => {
            return Err(e);
        },
    };
    let inbound_frames_port_text = match required(&args.inbound_frames_port, "inbound-frames-port", "inbound-frames-port", "PODCTL_INBOUND_FRAMES_PORT") {
        Ok(text) => text,
        Err(e) => {
            return Err(e);
        },
    };
    let backpressure_port_text = match required(&args.backpressure_port, "backpressure-port", "backpressure-port", "PODCTL_BACKPRESSURE_PORT") {
        Ok(text) => text,
        Err(e) => {
            return Err(e);
        },
    };
    let poll_readiness_port_text = match required(&args.poll_readiness_port, "poll-readiness-port", "poll-readiness-port", "PODCTL_POLL_READINESS_PORT") {
        Ok(text) => text,
        Err(e) => {
            return Err(e);
        },
    };
    let rtd_port_text = match required(&args.rtd_port, "rtd-port", "rtd-port", "PODCTL_RTD_PORT") {
        Ok(text) => text,
        Err(e) => {
            return Err(e);
        },
    };
    let host: [u8; 4] = match parse_ipv4(host_text, "host") {
        Ok(value) => value,
        Err(e) => {
            return Err(e);
        },
    };
    let udp_port: u16 = match parse_port(udp_port_text, "udp-port") {
        Ok(value) => value,
        Err(e) => {
            return Err(e);
        },
    };
    let tcp_port: u16 = match parse_port(tcp_port_text, "tcp-port") {
        Ok(value) => value,
        Err(e) => {
            return Err(e);
        },
    };
    let tls_host: [u8; 4] = match parse_ipv4(tls_host_text, "tls-host") {
        Ok(value) => value,
        Err(e) => {
            return Err(e);
        },
    };
    let tls_port: u16 = match parse_port(tls_port_text, "tls-port") {
        Ok(value) => value,
        Err(e) => {
            return Err(e);
        },
    };
    let inbound_frames_port: u16 = match parse_port(inbound_frames_port_text, "inbound-frames-port") {
        Ok(value) => value,
        Err(e) => {
            return Err(e);
        },
    };
    let backpressure_port: u16 = match parse_port(backpressure_port_text, "backpressure-port") {
        Ok(value) => value,
        Err(e) => {
            return Err(e);
        },
    };
    let poll_readiness_port: u16 = match parse_port(poll_readiness_port_text, "poll-readiness-port") {
        Ok(value) => value,
        Err(e) => {
            return Err(e);
        },
    };
    let rtd_port: u16 = match parse_port(rtd_port_text, "rtd-port") {
        Ok(value) => value,
        Err(e) => {
            return Err(e);
        },
    };
    Ok(
        Command::ProvisionPeer {
            host,
            udp_port,
            tcp_port,
            tls_host,
            tls_port,
            inbound_frames_port,
            backpressure_port,
            poll_readiness_port,
            rtd_port,
        },
    )
}

/// The command that stores the audio receiver.
pub fn validate_audio(args: AudioArgs) -> (r: Result<Command, ValidationError>)
    ensures
        is_made_of(Request::ProvisionAudio(args), r),
{
    let host_text = match required(&args.host, "host", "host", "PODCTL_AUDIO_HOST") {
        Ok(text) => text,
        Err(e) => {
            return Err(e);
        },
    };
    let port_text = match required(
        &args.audio_port,
        "audio-port",
        "audio-port",
        "PODCTL_AUDIO_PORT",
    ) {
        Ok(text) => text,
        Err(e) => {
            return Err(e);
        },
    };
    let host: [u8; 4] = match parse_ipv4(host_text, "host") {
        Ok(value) => value,
        Err(e) => {
            return Err(e);
        },
    };
    match parse_port(port_text, "audio-port") {
        Ok(port) => Ok(Command::ProvisionAudio { host, port }),
        Err(e) => Err(e),
    }
}

/// The command that stores the voice gate's threshold: a finite number that is not
/// below zero.
pub fn validate_vad_threshold(threshold: ThresholdInput) -> (r: Result<Command, ValidationError>)
    ensures
        is_made_of(Request::SetVadThreshold(threshold), r),
{
    match threshold {
        ThresholdInput::Missing => Err(
            ValidationError::Missing {
                input: "threshold",
                flag: "threshold",
                env: "PODCTL_VAD_THRESHOLD",
            },
        ),
        ThresholdInput::Number(bits) if bits & 0x7f80_0000 != 0x7f80_0000 && bits <= 0x8000_0000 =>
        Ok(Command::SetVadThreshold { threshold_bits: bits }),
        _ => Err(
            ValidationError::InvalidField {
                field: "threshold",
                expected: "non-negative finite float",
            },
        ),
    }
}

/// The command that stores the voice gate's hangover.
pub fn validate_vad_hangover(hangover_ms: Option<String>) -> (r: Result<Command, ValidationError>)
    ensures
        is_made_of(Request::SetVadHangover(hangover_ms), r),
{
    let hangover_text = match required(
        &hangover_ms,
        "hangover_ms",
        "hangover-ms",
        "PODCTL_VAD_HANGOVER_MS",
    ) {
        Ok(text) => text,
        Err(e) => {
            return Err(e);
        },
    };
    match parse_unsigned(hangover_text, u32::MAX as u64) {
        Some(ms) => Ok(Command::SetVadHangover { hangover_ms: ms as u32 }),
        None => Err(
            ValidationError::InvalidField {
                field: "hangover_ms",
                expected: "non-negative integer milliseconds (u32)",
            },
        ),
    }
}

/// The command an operator's request makes.
pub fn command_for(request: Request) -> (r: Result<Command, ValidationError>)
    ensures
        is_made_of(request, r),
{
    match request {
        Request::ProvisionWifi(args) => validate_wifi(args),
        Request::ProvisionPeer(args) => validate_peer(args),
        Request::ProvisionAudio(args) => validate_audio(args),
        Request::SetVadThreshold(threshold) => validate_vad_threshold(threshold),
        Request::SetVadHangover(hangover_ms) => validate_vad_hangover(hangover_ms),
        Request::SetTempWifi(args) => validate_set_temp_wifi(args),
        Request::ClearTempWifi => Ok(Command::ClearTemporaryWifiConfig),
    }
}

/// Temporary credentials are held to the rules of stored ones.
pub proof fn temporary_credentials_follow_the_same_rules(args: WifiArgs)
    ensures
        refusal(Request::SetTempWifi(args)) == refusal(Request::ProvisionWifi(args)),
{
}

/// A peer is refused for what is missing before anything supplied is read.
pub proof fn what_is_missing_is_reported_first(args: PeerArgs)
    requires
        peer_missing(args) is Some,
    ensures
        peer_refusal(args) == peer_missing(args),
        peer_refusal(args)->0 is Missing,
{
}

// ---- what holds of them ----

/// A number is read digit by digit: one more digit behind it counts ten times what was
/// read, and the digit. A plus sign in front changes nothing.
pub proof fn a_number_is_read_digit_by_digit(text: Seq<char>, n: nat, digit: char)
    requires
        unsigned(text) == Some(n),
        '0' <= digit <= '9',
    ensures
        unsigned(seq![digit]) == Some((digit as nat - 48) as nat),
        unsigned(text.push(digit)) == Some((n * 10 + (digit as nat - 48)) as nat),
        text[0] != '+' ==> unsigned(seq!['+'] + text) == Some(n),
{
    let one = seq![digit];
    assert(one.drop_last() =~= seq![]);
    assert(digits_value(seq![]) == 0);
    assert(one[0] == digit && one.last() == digit);
    let longer = text.push(digit);
    assert(longer[0] == text[0]);
    let digits = if text[0] == '+' {
        text.skip(1)
    } else {
        text
    };
    assert(text[0] == '+' ==> longer.skip(1) =~= digits.push(digit));
    assert(digits.push(digit).drop_last() =~= digits);
    assert forall|i: int| 0 <= i < digits.push(digit).len() implies is_digit(
        #[trigger] digits.push(digit)[i],
    ) by {
        if i < digits.len() {
            assert(digits.push(digit)[i] == digits[i]);
        }
    }
    assert((seq!['+'] + text).skip(1) =~= text);
}

/// Nothing else is a number: not an empty text, not a sign alone, and no text with a
/// character that is no digit, but for the sign in front.
pub proof fn nothing_else_is_a_number(text: Seq<char>, k: int)
    requires
        0 <= k < text.len(),
        text[k] < '0' || text[k] > '9',
        k > 0 || text[0] != '+',
    ensures
        unsigned(text) is None,
        unsigned(Seq::<char>::empty()) is None,
        unsigned(seq!['+']) is None,
{
    assert(seq!['+'].skip(1) =~= seq![]);
    assert(!is_digit(text[k]));
    if text[0] == '+' {
        assert(text.skip(1)[k - 1] == text[k]);
    }
}

/// A number past the limit is refused, and any other kept as it is.
pub proof fn a_limit_is_kept(text: Seq<char>, limit: nat)
    ensures
        unsigned_within(text, limit) is Some <==> unsigned(text) is Some && unsigned(text)->0
            <= limit,
        unsigned_within(text, limit) is Some ==> unsigned_within(text, limit) == unsigned(text),
{
}

/// An address is four octets in decimal with a dot between two of them, and nothing
/// else is one.
pub proof fn an_address_is_four_octets(text: Seq<char>, a: u8, b: u8, c: u8, d: u8)
    ensures
        ({
            let written = text::decimal(a as nat) + seq!['.'] + text::decimal(b as nat) + seq!['.']
                + text::decimal(c as nat) + seq!['.'] + text::decimal(d as nat);
            &&& dotted(seq![a, b, c, d]) == written
            &&& is_dotted(written)
        }),
        is_dotted(text) ==> exists|octets: [u8; 4]|
            text == text::decimal(#[trigger] octets@[0] as nat) + seq!['.'] + text::decimal(
                octets@[1] as nat,
            ) + seq!['.'] + text::decimal(octets@[2] as nat) + seq!['.'] + text::decimal(
                octets@[3] as nat,
            ),
{
    reveal_strlit(".");
    assert("."@ =~= seq!['.']);
    let octets: [u8; 4] = [a, b, c, d];
    assert(octets@ =~= seq![a, b, c, d]);
    if is_dotted(text) {
        let octets = choose|octets: [u8; 4]| text == #[trigger] dotted(octets@);
        assert(octets@[0] == octets@[0]);
    }
}

/// `text` is a port number.
pub open spec fn is_port(text: Seq<char>) -> bool {
    unsigned(text) matches Some(n) && n < 65536
}

/// WiFi credentials are made into a command exactly where both are there, the network
/// has a name, and each fits its field; the command holds them as they were given.
pub proof fn wifi_credentials_are_taken_as_given(
    args: WifiArgs,
    ssid: String,
    passphrase: String,
    made: Result<Command, ValidationError>,
)
    requires
        args.ssid == Some(ssid),
        args.passphrase == Some(passphrase),
        is_made_of(Request::ProvisionWifi(args), made),
    ensures
        ssid@.len() == 0 ==> made == Err::<Command, ValidationError>(ValidationError::EmptySsid),
        ssid@.len() > 0 && text::byte_len(ssid@) > 32 ==> made == Err::<Command, ValidationError>(
            ValidationError::SsidTooLong { bytes: text::byte_len(ssid@) as usize },
        ),
        ssid@.len() > 0 && text::byte_len(ssid@) <= 32 && text::byte_len(passphrase@) > 64
            ==> made == Err::<Command, ValidationError>(
            ValidationError::PassphraseTooLong { bytes: text::byte_len(passphrase@) as usize },
        ),
        ssid@.len() > 0 && text::byte_len(ssid@) <= 32 && text::byte_len(passphrase@) <= 64 ==> {
            &&& made is Ok
            &&& made->Ok_0 is ProvisionWifi
            &&& protocol::ssid_text(made->Ok_0->ProvisionWifi_ssid) == ssid@
            &&& protocol::passphrase_text(made->Ok_0->ProvisionWifi_passphrase) == passphrase@
        },
{
}

/// Credentials to use until the next reboot are taken or refused as those to store are.
pub proof fn temporary_credentials_are_taken_as_stored_ones(
    args: WifiArgs,
    stored: Result<Command, ValidationError>,
    temporary: Result<Command, ValidationError>,
)
    requires
        is_made_of(Request::ProvisionWifi(args), stored),
        is_made_of(Request::SetTempWifi(args), temporary),
    ensures
        stored is Err ==> temporary == stored,
        stored is Ok ==> {
            &&& temporary is Ok
            &&& temporary->Ok_0 is SetTemporaryWifiConfig
            &&& protocol::ssid_text(temporary->Ok_0->SetTemporaryWifiConfig_ssid)
                == protocol::ssid_text(stored->Ok_0->ProvisionWifi_ssid)
            &&& protocol::passphrase_text(temporary->Ok_0->SetTemporaryWifiConfig_passphrase)
                == protocol::passphrase_text(stored->Ok_0->ProvisionWifi_passphrase)
        },
{
}

/// A credential that is missing is asked for, the name of the network first.
pub proof fn a_missing_credential_is_asked_for(
    args: WifiArgs,
    made: Result<Command, ValidationError>,
)
    requires
        is_made_of(Request::ProvisionWifi(args), made),
    ensures
        args.ssid is None ==> made == Err::<Command, ValidationError>(
            ValidationError::Missing { input: "SSID", flag: "ssid", env: "PODCTL_WIFI_SSID" },
        ),
        args.ssid is Some && args.passphrase is None ==> made == Err::<Command, ValidationError>(
            ValidationError::Missing {
                input: "passphrase",
                flag: "passphrase",
                env: "PODCTL_WIFI_PASS",
            },
        ),
{
}

/// What of a peer is missing is asked for, before anything is read.
pub proof fn what_a_peer_lacks_is_asked_for(args: PeerArgs, made: Result<Command, ValidationError>)
    requires
        is_made_of(Request::ProvisionPeer(args), made),
    ensures
        args.host is None ==> made == Err::<Command, ValidationError>(
            ValidationError::Missing {
                input: "host",
                flag: "host",
                env: "PODCTL_PEER_HOST",
            },
        ),
        args.host is Some && args.udp_port is None ==> made == Err::<Command, ValidationError>(
            ValidationError::Missing {
                input: "udp-port",
                flag: "udp-port",
                env: "PODCTL_UDP_PORT",
            },
        ),
        args.host is Some && args.udp_port is Some
            && args.tcp_port is None ==> made == Err::<Command, ValidationError>(
            ValidationError::Missing {
                input: "tcp-port",
                flag: "tcp-port",
                env: "PODCTL_TCP_PORT",
            },
        ),
        args.host is Some && args.udp_port is Some && args.tcp_port is Some
            && args.tls_host is None ==> made == Err::<Command, ValidationError>(
            ValidationError::Missing {
                input: "tls-host",
                flag: "tls-host",
                env: "PODCTL_TLS_HOST",
            },
        ),
        args.host is Some && args.udp_port is Some && args.tcp_port is Some
            && args.tls_host is Some
            && args.tls_port is None ==> made == Err::<Command, ValidationError>(
            ValidationError::Missing {
                input: "tls-port",
                flag: "tls-port",
                env: "PODCTL_TLS_PORT",
            },
        ),
        args.host is Some && args.udp_port is Some && args.tcp_port is Some
            && args.tls_host is Some && args.tls_port is Some
            && args.inbound_frames_port is None ==> made == Err::<Command, ValidationError>(
            ValidationError::Missing {
                input: "inbound-frames-port",
                flag: "inbound-frames-port",
                env: "PODCTL_INBOUND_FRAMES_PORT",
            },
        ),
        args.host is Some && args.udp_port is Some && args.tcp_port is Some
            && args.tls_host is Some && args.tls_port is Some && args.inbound_frames_port is Some
            && args.backpressure_port is None ==> made == Err::<Command, ValidationError>(
            ValidationError::Missing {
                input: "backpressure-port",
                flag: "backpressure-port",
                env: "PODCTL_BACKPRESSURE_PORT",
            },
        ),
        args.host is Some && args.udp_port is Some && args.tcp_port is Some
            && args.tls_host is Some && args.tls_port is Some && args.inbound_frames_port is Some
            && args.backpressure_port is Some
            && args.poll_readiness_port is None ==> made == Err::<Command, ValidationError>(
            ValidationError::Missing {
                input: "poll-readiness-port",
                flag: "poll-readiness-port",
                env: "PODCTL_POLL_READINESS_PORT",
            },
        ),
        args.host is Some && args.udp_port is Some && args.tcp_port is Some
            && args.tls_host is Some && args.tls_port is Some && args.inbound_frames_port is Some
            && args.backpressure_port is Some && args.poll_readiness_port is Some
            && args.rtd_port is None ==> made == Err::<Command, ValidationError>(
            ValidationError::Missing {
                input: "rtd-port",
                flag: "rtd-port",
                env: "PODCTL_RTD_PORT",
            },
        ),
{
}

/// A peer that is all there is refused for the first of its parts that cannot be read,
/// and otherwise made into a command with every part in its own place.
pub proof fn a_peer_is_read_part_by_part(args: PeerArgs, made: Result<Command, ValidationError>)
    requires
        is_made_of(Request::ProvisionPeer(args), made),
        args.host is Some,
        args.udp_port is Some,
        args.tcp_port is Some,
        args.tls_host is Some,
        args.tls_port is Some,
        args.inbound_frames_port is Some,
        args.backpressure_port is Some,
        args.poll_readiness_port is Some,
        args.rtd_port is Some,
    ensures
        !is_dotted(args.host->0@) ==> made == Err::<Command, ValidationError>(
            ValidationError::InvalidField {
                field: "host",
                expected: "dotted IPv4",
            },
        ),
        is_dotted(args.host->0@)
            && !is_port(args.udp_port->0@) ==> made == Err::<Command, ValidationError>(
            ValidationError::InvalidField {
                field: "udp-port",
                expected: "port (0–65535)",
            },
        ),
        is_dotted(args.host->0@) && is_port(args.udp_port->0@)
            && !is_port(args.tcp_port->0@) ==> made == Err::<Command, ValidationError>(
            ValidationError::InvalidField {
                field: "tcp-port",
                expected: "port (0–65535)",
            },
        ),
        is_dotted(args.host->0@) && is_port(args.udp_port->0@) && is_port(args.tcp_port->0@)
            && !is_dotted(args.tls_host->0@) ==> made == Err::<Command, ValidationError>(
            ValidationError::InvalidField {
                field: "tls-host",
                expected: "dotted IPv4",
            },
        ),
        is_dotted(args.host->0@) && is_port(args.udp_port->0@) && is_port(args.tcp_port->0@)
            && is_dotted(args.tls_host->0@)
            && !is_port(args.tls_port->0@) ==> made == Err::<Command, ValidationError>(
            ValidationError::InvalidField {
                field: "tls-port",
                expected: "port (0–65535)",
            },
        ),
        is_dotted(args.host->0@) && is_port(args.udp_port->0@) && is_port(args.tcp_port->0@)
            && is_dotted(args.tls_host->0@) && is_port(args.tls_port->0@)
            && !is_port(args.inbound_frames_port->0@) ==> made == Err::<Command, ValidationError>(
            ValidationError::InvalidField {
                field: "inbound-frames-port",
                expected: "port (0–65535)",
            },
        ),
        is_dotted(args.host->0@) && is_port(args.udp_port->0@) && is_port(args.tcp_port->0@)
            && is_dotted(args.tls_host->0@) && is_port(args.tls_port->0@)
            && is_port(args.inbound_frames_port->0@)
            && !is_port(args.backpressure_port->0@) ==> made == Err::<Command, ValidationError>(
            ValidationError::InvalidField {
                field: "backpressure-port",
                expected: "port (0–65535)",
            },
        ),
        is_dotted(args.host->0@) && is_port(args.udp_port->0@) && is_port(args.tcp_port->0@)
            && is_dotted(args.tls_host->0@) && is_port(args.tls_port->0@)
            && is_port(args.inbound_frames_port->0@) && is_port(args.backpressure_port->0@)
            && !is_port(args.poll_readiness_port->0@) ==> made == Err::<Command, ValidationError>(
            ValidationError::InvalidField {
                field: "poll-readiness-port",
                expected: "port (0–65535)",
            },
        ),
        is_dotted(args.host->0@) && is_port(args.udp_port->0@) && is_port(args.tcp_port->0@)
            && is_dotted(args.tls_host->0@) && is_port(args.tls_port->0@)
            && is_port(args.inbound_frames_port->0@) && is_port(args.backpressure_port->0@)
            && is_port(args.poll_readiness_port->0@)
            && !is_port(args.rtd_port->0@) ==> made == Err::<Command, ValidationError>(
            ValidationError::InvalidField {
                field: "rtd-port",
                expected: "port (0–65535)",
            },
        ),
        is_dotted(args.host->0@) && is_port(args.udp_port->0@) && is_port(args.tcp_port->0@)
            && is_dotted(args.tls_host->0@) && is_port(args.tls_port->0@)
            && is_port(args.inbound_frames_port->0@) && is_port(args.backpressure_port->0@)
            && is_port(args.poll_readiness_port->0@) && is_port(args.rtd_port->0@) ==> {
            &&& made is Ok
            &&& made->Ok_0 is ProvisionPeer
            &&& dotted(made->Ok_0->ProvisionPeer_host@) == args.host->0@
            &&& unsigned(args.udp_port->0@) == Some(made->Ok_0->udp_port as nat)
            &&& unsigned(args.tcp_port->0@) == Some(made->Ok_0->tcp_port as nat)
            &&& dotted(made->Ok_0->tls_host@) == args.tls_host->0@
            &&& unsigned(args.tls_port->0@) == Some(made->Ok_0->tls_port as nat)
            &&& unsigned(args.inbound_frames_port->0@) == Some(made->Ok_0->inbound_frames_port as nat)
            &&& unsigned(args.backpressure_port->0@) == Some(made->Ok_0->backpressure_port as nat)
            &&& unsigned(args.poll_readiness_port->0@) == Some(made->Ok_0->poll_readiness_port as nat)
            &&& unsigned(args.rtd_port->0@) == Some(made->Ok_0->rtd_port as nat)
        },
{
}

/// An audio receiver is made into a command exactly where both its parts are there and
/// can be read.
pub proof fn a_receiver_is_read_part_by_part(
    args: AudioArgs,
    made: Result<Command, ValidationError>,
)
    requires
        is_made_of(Request::ProvisionAudio(args), made),
    ensures
        args.host is None ==> made == Err::<Command, ValidationError>(
            ValidationError::Missing { input: "host", flag: "host", env: "PODCTL_AUDIO_HOST" },
        ),
        args.host is Some && args.audio_port is None ==> made == Err::<Command, ValidationError>(
            ValidationError::Missing {
                input: "audio-port",
                flag: "audio-port",
                env: "PODCTL_AUDIO_PORT",
            },
        ),
        args.host is Some && args.audio_port is Some && !is_dotted(args.host->0@) ==> made
            == Err::<Command, ValidationError>(
            ValidationError::InvalidField { field: "host", expected: "dotted IPv4" },
        ),
        args.host is Some && args.audio_port is Some && is_dotted(args.host->0@) && !is_port(
            args.audio_port->0@,
        ) ==> made == Err::<Command, ValidationError>(
            ValidationError::InvalidField { field: "audio-port", expected: "port (0–65535)" },
        ),
        args.host is Some && args.audio_port is Some && is_dotted(args.host->0@) && is_port(
            args.audio_port->0@,
        ) ==> {
            &&& made is Ok
            &&& made->Ok_0 is ProvisionAudio
            &&& dotted(made->Ok_0->ProvisionAudio_host@) == args.host->0@
            &&& unsigned(args.audio_port->0@) == Some(made->Ok_0->port as nat)
        },
{
}

/// A threshold is taken as it is exactly where it is a number from zero on, up to the
/// largest finite one: its bit pattern lies below that of infinity, or is that of the
/// zero with a sign.
pub proof fn a_threshold_is_finite_and_not_below_zero(
    bits: u32,
    made: Result<Command, ValidationError>,
)
    requires
        is_made_of(Request::SetVadThreshold(ThresholdInput::Number(bits)), made),
    ensures
        bits < 0x7f80_0000 || bits == 0x8000_0000 ==> made == Ok::<Command, ValidationError>(
            Command::SetVadThreshold { threshold_bits: bits },
        ),
        bits >= 0x7f80_0000 && bits != 0x8000_0000 ==> made == Err::<Command, ValidationError>(
            ValidationError::InvalidField {
                field: "threshold",
                expected: "non-negative finite float",
            },
        ),
{
    assert(bits < 0x7f80_0000 || bits == 0x8000_0000 <==> bits & 0x7f80_0000 != 0x7f80_0000 && bits
        <= 0x8000_0000) by (bit_vector);
}

/// A threshold that is no number is refused, and one that is missing asked for.
pub proof fn no_threshold_is_made_up(
    given: ThresholdInput,
    made: Result<Command, ValidationError>,
)
    requires
        is_made_of(Request::SetVadThreshold(given), made),
    ensures
        given is Unreadable ==> made == Err::<Command, ValidationError>(
            ValidationError::InvalidField {
                field: "threshold",
                expected: "non-negative finite float",
            },
        ),
        given is Missing ==> made == Err::<Command, ValidationError>(
            ValidationError::Missing {
                input: "threshold",
                flag: "threshold",
                env: "PODCTL_VAD_THRESHOLD",
            },
        ),
{
}

/// A hangover is taken exactly where it is a whole number of milliseconds that fits
/// thirty-two bits.
pub proof fn a_hangover_is_a_count_of_milliseconds(
    given: Option<String>,
    made: Result<Command, ValidationError>,
)
    requires
        is_made_of(Request::SetVadHangover(given), made),
    ensures
        given is None ==> made == Err::<Command, ValidationError>(
            ValidationError::Missing {
                input: "hangover_ms",
                flag: "hangover-ms",
                env: "PODCTL_VAD_HANGOVER_MS",
            },
        ),
        given is Some && unsigned(given->0@) is Some && unsigned(given->0@)->0 < 0x1_0000_0000
            ==> made == Ok::<Command, ValidationError>(
            Command::SetVadHangover { hangover_ms: unsigned(given->0@)->0 as u32 },
        ),
        given is Some && (unsigned(given->0@) is None || unsigned(given->0@)->0 >= 0x1_0000_0000)
            ==> made == Err::<Command, ValidationError>(
            ValidationError::InvalidField {
                field: "hangover_ms",
                expected: "non-negative integer milliseconds (u32)",
            },
        ),
{
}

/// To go back to the stored credentials nothing is needed.
pub proof fn nothing_is_needed_to_go_back(made: Result<Command, ValidationError>)
    requires
        is_made_of(Request::ClearTempWifi, made),
    ensures
        made == Ok::<Command, ValidationError>(Command::ClearTemporaryWifiConfig),
{
}

/// A refusal names what is missing and where it is supplied, by how much a text is too
/// long, and what a field should hold.
pub proof fn a_refusal_says_what_is_wanted(
    input: &'static str,
    flag: &'static str,
    env: &'static str,
    bytes: usize,
)
    ensures
        error_text(ValidationError::Missing { input, flag, env }) == "missing "@ + input@
            + "; supply --"@ + flag@ + " or $"@ + env@,
        error_text(ValidationError::EmptySsid) == "SSID must not be empty"@,
        error_text(ValidationError::SsidTooLong { bytes }) == "SSID is "@ + text::decimal(
            bytes as nat,
        ) + " bytes; protocol limit is 32 bytes"@,
        error_text(ValidationError::PassphraseTooLong { bytes }) == "passphrase is "@
            + text::decimal(bytes as nat) + " bytes; protocol limit is 64 bytes"@,
        error_text(ValidationError::InvalidField { field: input, expected: flag }) == input@
            + " is not a valid "@ + flag@,
{
}

} // verus!
