//! In-flight substream bookkeeping: pending outbound requests and timed
//! upgrades.
//!
//! Both kinds of entry carry an absolute deadline in milliseconds; the
//! surrounding event loop supplies `now` on every poll, so the decision
//! whether a timeout fired is a plain comparison here.  The asynchronous
//! pieces — the muxer allocating a stream and the negotiation itself —
//! answer through the `UpgradeProgress` argument.

use vstd::prelude::*;

verus! {

/// The version of the protocol-negotiation procedure applied to an
/// outbound upgrade.
#[derive(Debug, Copy, Clone, PartialEq, Eq, Structural)]
pub enum Version {
    /// Negotiate, then wait for the negotiation to settle.
    V1,
    /// Negotiate optimistically, assuming the preferred protocol will be
    /// accepted.
    V1Lazy,
}

impl core::default::Default for Version {
    /// The default negotiation version.
    fn default() -> (r: Self)
        ensures
            r == Version::V1,
    {
        Version::V1
    }
}

/// The version an outbound upgrade is made with: the override, if one is
/// set and differs from the default; the default otherwise.  The choice is
/// made once per upgrade.
pub open spec fn spec_effective_version(version_override: Option<Version>) -> Version {
    match version_override {
        Some(v) => if v == Version::V1 {
            Version::V1
        } else {
            v
        },
        None => Version::V1,
    }
}

/// Picks the negotiation version for one outbound upgrade.
pub fn effective_version(version_override: Option<Version>) -> (r: Version)
    ensures
        r == spec_effective_version(version_override),
{
    match version_override {
        Some(v) => if v == Version::V1 {
            Version::V1
        } else {
            v
        },
        None => Version::V1,
    }
}

/// The instant `timeout` milliseconds after `now`, saturating: a deadline
/// past the largest representable instant never fires.
pub open spec fn spec_deadline_at(now: u64, timeout: u64) -> u64 {
    if now + timeout <= u64::MAX {
        (now + timeout) as u64
    } else {
        u64::MAX
    }
}

/// Computes the instant at which a timeout started now fires.
pub fn deadline_at(now: u64, timeout: u64) -> (r: u64)
    ensures
        r == spec_deadline_at(now, timeout),
{
    if timeout > u64::MAX - now {
        u64::MAX
    } else {
        now + timeout
    }
}

/// A pending outbound-substream request.
///
/// The deadline has been ticking since the handler asked for the stream:
/// the one time budget covers both muxer allocation and the negotiation
/// that follows.  Extraction is one-shot: a request extracted into
/// negotiation becomes `Done`, resolves on the next poll and is shed from
/// the set.
pub enum SubstreamRequested<U, P> {
    /// Still waiting for the muxer to allocate a stream.
    Waiting {
        /// The handler's tag for this request, handed back on completion
        /// or timeout.
        user_data: U,
        /// The instant at which the request times out.
        deadline: u64,
        /// The upgrade to apply once a stream is allocated.
        upgrade: P,
    },
    /// Already extracted into negotiation.
    Done,
}

/// The answer of polling a [`SubstreamRequested`].
pub enum RequestedPoll<U> {
    /// The deadline has not passed and no stream was allocated yet.
    Pending,
    /// The request had been extracted; the entry is spent and is removed
    /// from the set.
    Completed,
    /// The deadline passed while waiting; the tag comes back so the
    /// handler can be told of the dial timeout.
    TimedOut(U),
}

impl<U, P> SubstreamRequested<U, P> {
    /// Whether the request still waits for a stream.
    pub open spec fn is_waiting(self) -> bool {
        self is Waiting
    }

    /// The tag of a waiting request.
    pub open spec fn spec_user_data(self) -> U
        recommends
            self is Waiting,
    {
        self->Waiting_user_data
    }

    /// The deadline of a waiting request.
    pub open spec fn spec_deadline(self) -> u64
        recommends
            self is Waiting,
    {
        self->Waiting_deadline
    }

    /// The upgrade of a waiting request.
    pub open spec fn spec_upgrade(self) -> P
        recommends
            self is Waiting,
    {
        self->Waiting_upgrade
    }

    /// A new request whose deadline is already running.
    pub fn new(user_data: U, deadline: u64, upgrade: P) -> (r: Self)
        ensures
            r == (SubstreamRequested::Waiting { user_data, deadline, upgrade }),
    {
        SubstreamRequested::Waiting { user_data, deadline, upgrade }
    }

    /// Takes the tag, the still-running deadline and the upgrade out of a
    /// waiting request, leaving it `Done`.  A `Done` request cannot be
    /// extracted again.
    pub fn extract(&mut self) -> (r: (U, u64, P))
        requires
            old(self).is_waiting(),
        ensures
            *final(self) is Done,
            r.0 == old(self).spec_user_data(),
            r.1 == old(self).spec_deadline(),
            r.2 == old(self).spec_upgrade(),
    {
        let mut taken = SubstreamRequested::Done;
        core::mem::swap(self, &mut taken);
        match taken {
            SubstreamRequested::Waiting { user_data, deadline, upgrade } => (
                user_data,
                deadline,
                upgrade,
            ),
            SubstreamRequested::Done => vstd::pervasive::unreached(),
        }
    }

    /// One poll of the request at instant `now`: a `Done` request resolves
    /// and is shed; a waiting one times out once its deadline has passed
    /// and stays untouched before that.
    pub fn poll(&mut self, now: u64) -> (r: RequestedPoll<U>)
        ensures
            // The request resolves exactly when it was extracted or its
            // deadline has passed.
            r is Pending <==> old(self).is_waiting() && now < old(self).spec_deadline(),
            *old(self) is Done ==> r is Completed && *final(self) is Done,
            old(self).is_waiting() && old(self).spec_deadline() <= now ==> *final(self) is Done
                && r == RequestedPoll::TimedOut(old(self).spec_user_data()),
            old(self).is_waiting() && now < old(self).spec_deadline() ==> *final(self) == *old(self)
                && r is Pending,
    {
        let timed_out = match &*self {
            SubstreamRequested::Waiting { deadline, .. } => *deadline <= now,
            SubstreamRequested::Done => false,
        };
        if timed_out {
            let mut taken = SubstreamRequested::Done;
            core::mem::swap(self, &mut taken);
            match taken {
                SubstreamRequested::Waiting { user_data, .. } => RequestedPoll::TimedOut(user_data),
                SubstreamRequested::Done => vstd::pervasive::unreached(),
            }
        } else {
            match &*self {
                SubstreamRequested::Waiting { .. } => RequestedPoll::Pending,
                SubstreamRequested::Done => RequestedPoll::Completed,
            }
        }
    }
}

/// What the negotiation itself answered when polled.
pub enum UpgradeProgress<T, E> {
    /// The negotiation has not settled yet.
    Pending,
    /// The negotiation settled with the given outcome.
    Resolved(Result<T, E>),
}

/// Why an upgrade failed.
#[derive(Debug, Clone, PartialEq, Eq)]
pub enum UpgradeError<E> {
    /// The deadline passed before the negotiation settled.
    Timeout,
    /// The negotiation itself failed.
    Upgrade(E),
}

/// The answer of polling a [`SubstreamUpgrade`].
pub enum UpgradePoll<U, T, E> {
    /// Neither the deadline nor the negotiation has settled.
    Pending,
    /// The upgrade finished: the tag is consumed, together with either the
    /// negotiated protocol or the error.
    Finished { user_data: U, result: Result<T, UpgradeError<E>> },
}

/// An in-flight substream upgrade under a deadline.
///
/// The deadline is checked before the negotiation's own answer, so an
/// upgrade whose deadline passed reports a timeout even if the negotiation
/// settled in the same poll.  The tag is taken exactly once: a finished
/// upgrade must not be polled again.
pub struct SubstreamUpgrade<U> {
    user_data: Option<U>,
    deadline: u64,
}

impl<U> SubstreamUpgrade<U> {
    /// Whether the upgrade is still live (its tag not yet consumed).
    pub closed spec fn is_live(self) -> bool {
        self.user_data is Some
    }

    /// The tag of a live upgrade.
    pub closed spec fn spec_user_data(self) -> U
        recommends
            self.is_live(),
    {
        self.user_data->0
    }

    /// The instant at which the upgrade times out.
    pub closed spec fn spec_deadline(self) -> u64 {
        self.deadline
    }

    /// The value a fresh in-flight upgrade has.
    pub closed spec fn spec_new(user_data: U, deadline: u64) -> SubstreamUpgrade<U> {
        SubstreamUpgrade { user_data: Some(user_data), deadline }
    }

    /// What a fresh in-flight upgrade looks like: live, with the given
    /// tag and deadline.
    pub broadcast proof fn lemma_spec_new(user_data: U, deadline: u64)
        ensures
            (#[trigger] Self::spec_new(user_data, deadline)).is_live(),
            Self::spec_new(user_data, deadline).spec_user_data() == user_data,
            Self::spec_new(user_data, deadline).spec_deadline() == deadline,
    {
    }

    /// A new in-flight upgrade with the given deadline.
    ///
    /// For an outbound upgrade the deadline is the one that came with the
    /// request and has been ticking since; for an inbound upgrade it
    /// starts at stream acceptance.
    pub fn new(user_data: U, deadline: u64) -> (r: Self)
        ensures
            r == Self::spec_new(user_data, deadline),
            r.is_live(),
            r.spec_user_data() == user_data,
            r.spec_deadline() == deadline,
    {
        SubstreamUpgrade { user_data: Some(user_data), deadline }
    }

    /// Whether the deadline has passed at instant `now`.
    pub fn deadline_passed(&self, now: u64) -> (r: bool)
        ensures
            r == (self.spec_deadline() <= now),
    {
        self.deadline <= now
    }

    /// One poll of the upgrade at instant `now`, with the negotiation's
    /// own answer: the deadline is consulted first; otherwise the answer
    /// is passed through, negotiation failures wrapped as upgrade errors.
    pub fn poll<T, E>(&mut self, now: u64, progress: UpgradeProgress<T, E>) -> (r: UpgradePoll<
        U,
        T,
        E,
    >)
        requires
            old(self).is_live(),
        ensures
            // The upgrade stays pending exactly while neither its
            // deadline nor the negotiation has settled.
            r is Pending <==> now < old(self).spec_deadline() && progress is Pending,
            final(self).spec_deadline() == old(self).spec_deadline(),
            old(self).spec_deadline() <= now ==> r == (UpgradePoll::Finished {
                user_data: old(self).spec_user_data(),
                result: Result::<T, UpgradeError<E>>::Err(UpgradeError::Timeout),
            }) && !final(self).is_live(),
            now < old(self).spec_deadline() ==> match progress {
                UpgradeProgress::Pending => r is Pending && *final(self) == *old(self),
                UpgradeProgress::Resolved(outcome) => !final(self).is_live() && r
                    == (UpgradePoll::Finished {
                    user_data: old(self).spec_user_data(),
                    result: match outcome {
                        Ok(t) => Result::<T, UpgradeError<E>>::Ok(t),
                        Err(e) => Result::<T, UpgradeError<E>>::Err(UpgradeError::Upgrade(e)),
                    },
                }),
            },
    {
        if self.deadline <= now {
            let mut taken: Option<U> = None;
            core::mem::swap(&mut self.user_data, &mut taken);
            match taken {
                Some(user_data) => UpgradePoll::Finished {
                    user_data,
                    result: Err(UpgradeError::Timeout),
                },
                None => vstd::pervasive::unreached(),
            }
        } else {
            match progress {
                UpgradeProgress::Pending => UpgradePoll::Pending,
                UpgradeProgress::Resolved(outcome) => {
                    let mut taken: Option<U> = None;
                    core::mem::swap(&mut self.user_data, &mut taken);
                    match taken {
                        Some(user_data) => UpgradePoll::Finished {
                            user_data,
                            result: match outcome {
                                Ok(t) => Ok(t),
                                Err(e) => Err(UpgradeError::Upgrade(e)),
                            },
                        },
                        None => vstd::pervasive::unreached(),
                    }
                },
            }
        }
    }
}

} // verus!
