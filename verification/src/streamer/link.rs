//! Which directions a wake of the event loop waits on.
//!
//! A TLS read can be blocked on writability and a TLS write on readability, so
//! the direction a caller armed is not always the direction to wait on. Putting
//! a de-armed direction back would turn backpressure into a busy spin on a
//! level-triggered descriptor, so directions are substituted and never added.

use vstd::prelude::*;

verus! {

/// Poll directions to wait on for one wake.
#[derive(Debug, Clone, Copy, PartialEq, Eq, Structural)]
pub struct PollInterest {
    /// Wait for the transport to be readable.
    pub read: bool,
    /// Wait for the transport to be writable.
    pub write: bool,
}

impl PollInterest {
    /// Interest in neither direction: a wake that can only time out.
    pub fn none() -> (r: PollInterest)
        ensures
            r == (PollInterest { read: false, write: false }),
    {
        PollInterest { read: false, write: false }
    }

    /// Interest in readability alone.
    pub fn read() -> (r: PollInterest)
        ensures
            r == (PollInterest { read: true, write: false }),
    {
        PollInterest { read: true, write: false }
    }

    /// Interest in writability alone.
    pub fn write() -> (r: PollInterest)
        ensures
            r == (PollInterest { read: false, write: true }),
    {
        PollInterest { read: false, write: true }
    }

    /// Interest in both directions, for a wake whose blocking direction cannot
    /// be observed (a TLS handshake step).
    pub fn both() -> (r: PollInterest)
        ensures
            r == (PollInterest { read: true, write: true }),
    {
        PollInterest { read: true, write: true }
    }
}

/// Which direction a TLS transport last said it was waiting on, for one
/// operation. A read's outstanding request and a write's are tracked separately.
#[derive(Debug, Clone, Copy, PartialEq, Eq, Structural)]
pub enum Want {
    /// The last call wanted read: poll for readability before retrying.
    Read,
    /// The last call wanted write: poll for writability before retrying.
    Write,
    /// The last call completed; no direction is outstanding.
    Nothing,
}

/// Poll directions for one wake, and how many of the armed directions were
/// substituted.
#[derive(Debug, Clone, Copy, PartialEq, Eq, Structural)]
pub struct PollPlan {
    /// Directions the wake should wait on.
    pub interest: PollInterest,
    /// Armed directions that wait on the other direction. It never affects
    /// `interest`.
    pub substituted: u32,
}

/// An armed read that waits on writability.
pub open spec fn read_inverted(readable: bool, read_want: Want) -> bool {
    readable && read_want == Want::Write
}

/// An armed write that waits on readability.
pub open spec fn write_inverted(writable: bool, write_want: Want) -> bool {
    writable && write_want == Want::Read
}

/// The directions one wake waits on: every armed operation contributes the one
/// direction it needs, and nothing else contributes.
pub open spec fn poll_plan(
    readable: bool,
    writable: bool,
    read_want: Want,
    write_want: Want,
) -> PollPlan {
    let read_inv = read_inverted(readable, read_want);
    let write_inv = write_inverted(writable, write_want);
    PollPlan {
        interest: PollInterest {
            read: (readable && !read_inv) || write_inv,
            write: (writable && !write_inv) || read_inv,
        },
        substituted: ((if read_inv { 1int } else { 0 }) + (if write_inv { 1int } else { 0 })) as u32,
    }
}

/// Decides which directions to poll for a wake in which the caller armed
/// reading (`readable`) and/or writing (`writable`), given what each operation
/// is waiting on.
pub fn plan_poll_interest(
    readable: bool,
    writable: bool,
    read_want: Want,
    write_want: Want,
) -> (plan: PollPlan)
    ensures
        plan == poll_plan(readable, writable, read_want, write_want),
{
    let mut plan = PollPlan { interest: PollInterest::none(), substituted: 0 };
    if readable {
        if read_want == Want::Write {
            plan.interest.write = true;
            plan.substituted = plan.substituted + 1;
        } else {
            plan.interest.read = true;
        }
    }
    if writable {
        if write_want == Want::Read {
            plan.interest.read = true;
            plan.substituted = plan.substituted + 1;
        } else {
            plan.interest.write = true;
        }
    }
    plan
}

/// A wake in which nothing was armed waits on nothing, whatever is outstanding.
pub proof fn nothing_armed_waits_on_nothing(read_want: Want, write_want: Want)
    ensures
        poll_plan(false, false, read_want, write_want).interest == (PollInterest {
            read: false,
            write: false,
        }),
        poll_plan(false, false, read_want, write_want).substituted == 0,
{
}

/// A direction the caller de-armed is waited on only where the armed operation
/// itself needs it: the other operation's outstanding request never puts it back.
pub proof fn a_de_armed_direction_is_never_reinstated(
    readable: bool,
    writable: bool,
    read_want: Want,
    write_want: Want,
)
    ensures
        !writable ==> poll_plan(readable, writable, read_want, write_want).interest.write
            == read_inverted(readable, read_want),
        !readable ==> poll_plan(readable, writable, read_want, write_want).interest.read
            == write_inverted(writable, write_want),
{
}

/// Substitution replaces: a wake waits on exactly as many operations as were
/// armed, and on at least one direction when any was.
pub proof fn an_armed_operation_is_always_waited_on(
    readable: bool,
    writable: bool,
    read_want: Want,
    write_want: Want,
)
    ensures
        ({
            let plan = poll_plan(readable, writable, read_want, write_want);
            &&& (readable || writable) <==> (plan.interest.read || plan.interest.write)
            &&& plan.substituted <= 2
            &&& readable && read_want != Want::Write ==> plan.interest.read
            &&& readable && read_want == Want::Write ==> plan.interest.write
            &&& writable && write_want != Want::Read ==> plan.interest.write
            &&& writable && write_want == Want::Read ==> plan.interest.read
        }),
{
}

/// A wake waits on a direction exactly where an armed operation needs it, and counts
/// every armed operation that waits on the other direction than its own.
pub proof fn a_wake_waits_on_what_its_operations_need(
    readable: bool,
    writable: bool,
    read_want: Want,
    write_want: Want,
)
    ensures
        ({
            let plan = poll_plan(readable, writable, read_want, write_want);
            let swapped_read = readable && read_want == Want::Write;
            let swapped_write = writable && write_want == Want::Read;
            &&& plan.interest.read <==> (readable && read_want != Want::Write) || (writable
                && write_want == Want::Read)
            &&& plan.interest.write <==> (writable && write_want != Want::Read) || (readable
                && read_want == Want::Write)
            &&& plan.substituted == 2 <==> swapped_read && swapped_write
            &&& plan.substituted == 0 <==> !swapped_read && !swapped_write
            &&& plan.substituted <= 2
        }),
{
}

} // verus!
