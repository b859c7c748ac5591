//! Keep-alive intent and the planned shutdown of a connection.
//!
//! After every handler poll the driver reads the handler's keep-alive
//! intent and reshapes the shutdown plan; the plan only fires while no
//! substream is requested or negotiating.  Instants are plain milliseconds
//! since an arbitrary epoch; the surrounding event loop supplies `now`.

use vstd::prelude::*;

verus! {

/// The handler's intent about whether the connection may be closed on
/// idleness.
#[derive(Debug, Copy, Clone, PartialEq, Eq, Structural)]
pub enum KeepAlive {
    /// Keep the connection alive.
    Yes,
    /// Close the connection as soon as it is idle.
    No,
    /// Keep the connection alive at least until the given instant.
    Until(u64),
}

/// The currently planned connection shutdown.
///
/// A plan in state `Later` stands for a running timer; it fires once `now`
/// reaches the recorded deadline.  A deadline already in the past fires at
/// the next shutdown check, which makes it equivalent to `Asap`.
#[derive(Debug, Copy, Clone, PartialEq, Eq, Structural)]
pub enum Shutdown {
    /// No shutdown is planned.
    NoPlan,
    /// A shutdown is planned as soon as the connection is idle.
    Asap,
    /// A shutdown is planned for when the deadline has passed.
    Later { deadline: u64 },
}

/// What the next shutdown plan is after reading the handler's keep-alive
/// intent: `Yes` clears the plan, `No` plans an immediate shutdown, and
/// `Until(t)` plans one for instant `t` (immediately if `t` has passed).
pub open spec fn next_shutdown(current: Shutdown, keep_alive: KeepAlive) -> Shutdown {
    match keep_alive {
        KeepAlive::Yes => Shutdown::NoPlan,
        KeepAlive::No => Shutdown::Asap,
        KeepAlive::Until(t) => Shutdown::Later { deadline: t },
    }
}

/// Whether a shutdown plan fires at instant `now`.
pub open spec fn shutdown_fires(plan: Shutdown, now: u64) -> bool {
    match plan {
        Shutdown::NoPlan => false,
        Shutdown::Asap => true,
        Shutdown::Later { deadline } => deadline <= now,
    }
}

/// Applies the handler's keep-alive intent to the current shutdown plan.
pub fn apply_keep_alive(current: Shutdown, keep_alive: KeepAlive) -> (r: Shutdown)
    ensures
        r == next_shutdown(current, keep_alive),
{
    match keep_alive {
        KeepAlive::Yes => Shutdown::NoPlan,
        KeepAlive::No => Shutdown::Asap,
        KeepAlive::Until(t) => Shutdown::Later { deadline: t },
    }
}

/// Whether the shutdown plan fires at instant `now`.  The caller consults
/// this only while all three substream collections are empty.
pub fn shutdown_check(plan: &Shutdown, now: u64) -> (r: bool)
    ensures
        r == shutdown_fires(*plan, now),
{
    match plan {
        Shutdown::NoPlan => false,
        Shutdown::Asap => true,
        Shutdown::Later { deadline } => *deadline <= now,
    }
}

/// Law: a keep-alive intent of `Until(t)` never fires before `t`, whatever
/// the previous plan was, and always fires from `t` on.
pub proof fn lemma_until_fires_exactly_at_deadline(current: Shutdown, t: u64, now: u64)
    ensures
        shutdown_fires(next_shutdown(current, KeepAlive::Until(t)), now) <==> t <= now,
{
}

/// Law: after the handler answered `Yes`, no shutdown fires; after `No`,
/// the plan fires at every instant (though it is acted upon only once the
/// connection is idle).
pub proof fn lemma_yes_and_no(current: Shutdown, now: u64)
    ensures
        !shutdown_fires(next_shutdown(current, KeepAlive::Yes), now),
        shutdown_fires(next_shutdown(current, KeepAlive::No), now),
{
}

} // verus!
