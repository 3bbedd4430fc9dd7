//! The bookkeeping of a TLS session over a non-blocking socket.
//!
//! A read can be blocked on writability and a write on readability. What each
//! operation waits on is kept apart, so that one never speaks for the other.

use vstd::prelude::*;

use crate::streamer::link::{self, plan_poll_interest, PollInterest, Want};
use crate::text::{self, push_decimal, push_text};

verus! {

/// Why an operation on the session did not complete. `E` is the caller's error.
#[derive(Debug, Clone, Copy, PartialEq, Eq)]
pub enum TlsFault<E> {
    /// It waits until the socket is readable.
    WantRead,
    /// It waits until the socket is writable.
    WantWrite,
    /// The peer ended the stream in an orderly way.
    ZeroReturn(E),
    /// It failed.
    Other(E),
}

/// An operation's failure as the event loop takes it.
#[derive(Debug, Clone, Copy, PartialEq, Eq)]
pub enum LinkFault<E> {
    /// Not now: wait, and try again.
    WouldBlock,
    /// The link is broken.
    Broken(E),
}

/// What a fault says: the direction the operation waits on now, and the failure.
pub open spec fn classified<E>(fault: TlsFault<E>) -> (Want, LinkFault<E>) {
    match fault {
        TlsFault::WantRead => (Want::Read, LinkFault::WouldBlock),
        TlsFault::WantWrite => (Want::Write, LinkFault::WouldBlock),
        TlsFault::ZeroReturn(e) => (Want::Nothing, LinkFault::Broken(e)),
        TlsFault::Other(e) => (Want::Nothing, LinkFault::Broken(e)),
    }
}

/// Sorts a fault into the direction the operation waits on now and its failure.
/// Only the two wants are a reason to wait; anything else keeps its error.
pub fn classify<E>(fault: TlsFault<E>) -> (r: (Want, LinkFault<E>))
    ensures
        r == classified(fault),
{
    match fault {
        TlsFault::WantRead => (Want::Read, LinkFault::WouldBlock),
        TlsFault::WantWrite => (Want::Write, LinkFault::WouldBlock),
        TlsFault::ZeroReturn(e) => (Want::Nothing, LinkFault::Broken(e)),
        TlsFault::Other(e) => (Want::Nothing, LinkFault::Broken(e)),
    }
}

/// What a session's operations wait on.
#[derive(Debug, Clone, Copy, PartialEq, Eq, Structural)]
pub struct TlsLink {
    /// What reading waits on.
    pub read_want: Want,
    /// What writing waits on.
    pub write_want: Want,
    /// Wakes that waited on the other direction than the one armed.
    pub want_substitutions: u32,
}

/// What a read comes to, and what reading waits on then. An orderly end of the
/// stream reads as no bytes.
pub open spec fn read_outcome<E>(call: Result<usize, TlsFault<E>>) -> (
    Want,
    Result<usize, LinkFault<E>>,
) {
    match call {
        Ok(n) => (Want::Nothing, Ok(n)),
        Err(TlsFault::ZeroReturn(_)) => (Want::Nothing, Ok(0)),
        Err(fault) => (classified(fault).0, Err(classified(fault).1)),
    }
}

/// What a write comes to, and what writing waits on then.
pub open spec fn write_outcome<E>(call: Result<usize, TlsFault<E>>) -> (
    Want,
    Result<usize, LinkFault<E>>,
) {
    match call {
        Ok(n) => (Want::Nothing, Ok(n)),
        Err(fault) => (classified(fault).0, Err(classified(fault).1)),
    }
}

/// The line that reports a session's end.
pub open spec fn teardown_text(peer: Option<Seq<char>>, substitutions: u32) -> Seq<char> {
    "session down to "@ + match peer {
        Some(peer) => peer,
        None => "unknown peer"@,
    } + " — wsub="@ + text::decimal(substitutions as nat)
}

impl TlsLink {
    /// A session whose handshake has completed: nothing waits.
    pub fn new() -> (r: TlsLink)
        ensures
            r == (TlsLink {
                read_want: Want::Nothing,
                write_want: Want::Nothing,
                want_substitutions: 0,
            }),
    {
        TlsLink { read_want: Want::Nothing, write_want: Want::Nothing, want_substitutions: 0 }
    }

    /// Takes the result of reading from the session.
    pub fn on_read<E>(&mut self, call: Result<usize, TlsFault<E>>) -> (r: Result<
        usize,
        LinkFault<E>,
    >)
        ensures
            r == read_outcome(call).1,
            *final(self) == (TlsLink { read_want: read_outcome(call).0, ..*old(self) }),
    {
        match call {
            Ok(n) => {
                self.read_want = Want::Nothing;
                Ok(n)
            },
            Err(TlsFault::ZeroReturn(_)) => {
                self.read_want = Want::Nothing;
                Ok(0)
            },
            Err(fault) => {
                let (want, broken) = classify(fault);
                self.read_want = want;
                Err(broken)
            },
        }
    }

    /// Takes the result of writing to the session.
    pub fn on_write<E>(&mut self, call: Result<usize, TlsFault<E>>) -> (r: Result<
        usize,
        LinkFault<E>,
    >)
        ensures
            r == write_outcome(call).1,
            *final(self) == (TlsLink { write_want: write_outcome(call).0, ..*old(self) }),
    {
        match call {
            Ok(n) => {
                self.write_want = Want::Nothing;
                Ok(n)
            },
            Err(fault) => {
                let (want, broken) = classify(fault);
                self.write_want = want;
                Err(broken)
            },
        }
    }

    /// The directions a wake waits on, given what the caller armed.
    pub fn poll_interest(&mut self, readable: bool, writable: bool) -> (r: PollInterest)
        ensures
            ({
                let plan = link::poll_plan(
                    readable,
                    writable,
                    old(self).read_want,
                    old(self).write_want,
                );
                let total = old(self).want_substitutions + plan.substituted;
                &&& r == plan.interest
                &&& *final(self) == TlsLink {
                    want_substitutions: (if total > u32::MAX {
                        u32::MAX as int
                    } else {
                        total
                    }) as u32,
                    ..*old(self)
                }
            }),
    {
        let plan = plan_poll_interest(readable, writable, self.read_want, self.write_want);
        self.want_substitutions = self.want_substitutions.saturating_add(plan.substituted);
        plan.interest
    }

    /// Wakes so far that waited on the other direction than the one armed.
    pub fn want_substitutions(&self) -> (r: u32)
        ensures
            r == self.want_substitutions,
    {
        self.want_substitutions
    }

    /// Decoded bytes may wait in the session while the socket shows nothing to
    /// read, so every wake tries a read.
    pub fn buffers_plaintext(&self) -> (r: bool)
        ensures
            r,
    {
        true
    }

    /// One line about the session's end: the peer, where it can still be named, and
    /// how many wakes waited on the other direction.
    pub fn teardown_facts(&self, peer: Option<&str>) -> (r: String)
        ensures
            r@ == teardown_text(
                match peer {
                    Some(peer) => Some(peer@),
                    None => None,
                },
                self.want_substitutions,
            ),
    {
        let mut out = String::new();
        push_text(&mut out, "session down to ");
        match peer {
            Some(peer) => push_text(&mut out, peer),
            None => push_text(&mut out, "unknown peer"),
        }
        push_text(&mut out, " — wsub=");
        push_decimal(&mut out, self.want_substitutions as u64);
        assert(out@ =~= teardown_text(
            match peer {
                Some(peer) => Some(peer@),
                None => None,
            },
            self.want_substitutions,
        ));
        out
    }
}

/// An operation waits on a direction exactly where it said it would block.
pub proof fn only_a_blocked_operation_waits<E>(call: Result<usize, TlsFault<E>>)
    ensures
        read_outcome(call).0 != Want::Nothing <==> read_outcome(call).1 == Err::<
            usize,
            LinkFault<E>,
        >(LinkFault::WouldBlock),
        write_outcome(call).0 != Want::Nothing <==> write_outcome(call).1 == Err::<
            usize,
            LinkFault<E>,
        >(LinkFault::WouldBlock),
{
}

/// A blocked read, and nothing else armed, is waited for on the direction it
/// named.
pub proof fn a_blocked_read_arms_what_it_asked_for<E>(
    fault: TlsFault<E>,
    write_want: Want,
)
    requires
        fault is WantRead || fault is WantWrite,
    ensures
        link::poll_plan(
            true,
            false,
            read_outcome(Err::<usize, TlsFault<E>>(fault)).0,
            write_want,
        ).interest == (PollInterest { read: fault is WantRead, write: fault is WantWrite }),
{
}

/// A read or a write that blocked waits on the direction the session named; one that
/// went through hands its count on; one that failed hands its own error on. An orderly
/// end reads as no bytes, and breaks a write.
pub proof fn an_operation_comes_to_what_the_session_said<E>(n: usize, e: E)
    ensures
        read_outcome(Ok::<usize, TlsFault<E>>(n)) == (Want::Nothing, Ok::<usize, LinkFault<E>>(n)),
        write_outcome(Ok::<usize, TlsFault<E>>(n)) == (Want::Nothing, Ok::<usize, LinkFault<E>>(n)),
        read_outcome(Err::<usize, TlsFault<E>>(TlsFault::WantRead)) == (Want::Read, Err::<
            usize,
            LinkFault<E>,
        >(LinkFault::WouldBlock)),
        write_outcome(Err::<usize, TlsFault<E>>(TlsFault::WantRead)) == (Want::Read, Err::<
            usize,
            LinkFault<E>,
        >(LinkFault::WouldBlock)),
        read_outcome(Err::<usize, TlsFault<E>>(TlsFault::WantWrite)) == (Want::Write, Err::<
            usize,
            LinkFault<E>,
        >(LinkFault::WouldBlock)),
        write_outcome(Err::<usize, TlsFault<E>>(TlsFault::WantWrite)) == (Want::Write, Err::<
            usize,
            LinkFault<E>,
        >(LinkFault::WouldBlock)),
        read_outcome(Err::<usize, TlsFault<E>>(TlsFault::ZeroReturn(e))) == (Want::Nothing, Ok::<
            usize,
            LinkFault<E>,
        >(0)),
        write_outcome(Err::<usize, TlsFault<E>>(TlsFault::ZeroReturn(e))) == (Want::Nothing, Err::<
            usize,
            LinkFault<E>,
        >(LinkFault::Broken(e))),
        read_outcome(Err::<usize, TlsFault<E>>(TlsFault::Other(e))) == (Want::Nothing, Err::<
            usize,
            LinkFault<E>,
        >(LinkFault::Broken(e))),
        write_outcome(Err::<usize, TlsFault<E>>(TlsFault::Other(e))) == (Want::Nothing, Err::<
            usize,
            LinkFault<E>,
        >(LinkFault::Broken(e))),
{
}

/// A fault is sorted by what it is: the two wants are reasons to wait on the direction
/// they name, anything else breaks the link with its own error.
pub proof fn a_fault_is_sorted_by_what_it_is<E>(e: E)
    ensures
        classified(TlsFault::<E>::WantRead) == (Want::Read, LinkFault::<E>::WouldBlock),
        classified(TlsFault::<E>::WantWrite) == (Want::Write, LinkFault::<E>::WouldBlock),
        classified(TlsFault::ZeroReturn(e)) == (Want::Nothing, LinkFault::Broken(e)),
        classified(TlsFault::Other(e)) == (Want::Nothing, LinkFault::Broken(e)),
{
}

/// A session's end is told with the peer, where it can still be named, and the count.
pub proof fn a_session_ends_with_its_facts(peer: Seq<char>, substitutions: u32)
    ensures
        teardown_text(Some(peer), substitutions) == "session down to "@ + peer + " — wsub="@
            + text::decimal(substitutions as nat),
        teardown_text(None, substitutions) == "session down to "@ + "unknown peer"@ + " — wsub="@
            + text::decimal(substitutions as nat),
{
}

} // verus!
