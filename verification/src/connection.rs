//! The per-connection driver: a multiplexed connection to a peer with an
//! associated handler.
//!
//! The driver is a cooperative state machine.  On each wakeup the
//! surrounding event loop polls its asynchronous collaborators — the
//! pending-request set, the handler, the two sets of in-flight upgrades,
//! the keep-alive timer and the muxer — and hands their answers to
//! [`Connection::step`] as plain values.  `step` walks a strict priority
//! ladder, applies the first rung that can make progress, and returns the
//! action the loop must take; the loop performs it and, unless the action
//! yields or closes the connection, calls `step` again, so the handler is
//! re-polled after every external input.

use vstd::prelude::*;
use crate::error::ConnectionError;
use crate::keep_alive::{KeepAlive, Shutdown, apply_keep_alive, next_shutdown, shutdown_check,
    shutdown_fires};
use crate::protocols::{clone_protocol_list, name_seq, normalize_protocols, normalized, protocol_lists_eq};
use crate::substream::{RequestedPoll, SubstreamRequested, SubstreamUpgrade, UpgradeError,
    UpgradePoll, UpgradeProgress, Version, deadline_at, effective_version, spec_deadline_at,
    spec_effective_version};

verus! {

/// Event generated by a connection, surfaced to the caller.
#[derive(Debug, Clone)]
pub enum Event<T, A> {
    /// Event generated by the handler.
    Handler(T),
    /// Address of the remote has changed.
    AddressChange(A),
}

/// What the handler answered when polled.
pub enum HandlerPoll<P, U, T, E> {
    /// The handler cannot make progress.
    Pending,
    /// The handler asks for a new outbound substream.  The timeout starts
    /// now, at request time: its one budget covers both the muxer
    /// allocating a stream and the negotiation that follows.
    OutboundSubstreamRequest {
        /// The upgrade to apply on the substream.
        upgrade: P,
        /// The handler's tag for the request.
        user_data: U,
        /// The timeout, in milliseconds from now.
        timeout: u64,
    },
    /// The handler emits an event for the caller.
    Custom(T),
    /// The handler asks to close the connection.
    Close(E),
}

/// What the muxer's event poll answered.
pub enum MuxerEvent<A, I> {
    /// No event.
    Pending,
    /// The address of the remote has changed.
    AddressChange(A),
    /// The muxer failed.
    Failed(I),
}

/// What the muxer answered when asked for a new substream.
pub enum StreamPoll<I> {
    /// No stream available yet.
    Pending,
    /// A fresh substream was allocated; the caller keeps the stream
    /// itself.
    Ready,
    /// The muxer failed.
    Failed(I),
}

/// The report that one in-flight upgrade's negotiation settled.
pub enum UpgradeSettled<T, E> {
    /// No negotiation settled.
    Pending,
    /// The negotiation of the entry at `index` settled with `outcome`.
    At {
        /// The index of the entry in its collection.
        index: usize,
        /// What the negotiation produced.
        outcome: Result<T, E>,
    },
}

/// The handler's current inbound protocol bundle: what it would apply to
/// the next accepted inbound substream.
pub struct ListenProtocol<U> {
    /// The protocol names the upgrade supports, as raw bytes.
    pub protocols: Vec<Vec<u8>>,
    /// The handler's tag for the substream.
    pub user_data: U,
    /// The negotiation timeout, in milliseconds from acceptance.
    pub timeout: u64,
}

/// The action one call of [`Connection::step`] decided on.  Variants that
/// do not yield or close tell the event loop what to do and to call `step`
/// again.
pub enum Step<T, E, I, A, UIn, UOut, POut, TP, UE> {
    /// An extracted outbound request resolved and was shed from the set.
    RequestCompleted,
    /// A pending outbound request timed out before the muxer allocated a
    /// stream: tell the handler of the dial timeout.
    NotifyDialTimeout {
        /// The tag of the timed-out request.
        user_data: UOut,
    },
    /// The handler asked for an outbound substream; the request was
    /// queued with its timeout already running.
    RequestQueued,
    /// Yield the handler's event to the caller.
    HandlerCustom(T),
    /// The connection is closed; surface the error once and do not poll
    /// again.
    Closed(ConnectionError<E, I>),
    /// An outbound upgrade finished: tell the handler.  Its entry left
    /// the outbound collection at `index`.
    NotifyFullyNegotiatedOutbound {
        /// The tag of the upgrade.
        user_data: UOut,
        /// The negotiated protocol.
        protocol: TP,
        /// Where the entry stood in the outbound collection.
        index: usize,
    },
    /// An outbound upgrade failed or timed out: tell the handler.  Its
    /// entry left the outbound collection at `index`.
    NotifyDialUpgradeError {
        /// The tag of the upgrade.
        user_data: UOut,
        /// Why it failed.
        error: UpgradeError<UE>,
        /// Where the entry stood in the outbound collection.
        index: usize,
    },
    /// An inbound upgrade finished: tell the handler.  Its entry left
    /// the inbound collection at `index`.
    NotifyFullyNegotiatedInbound {
        /// The tag of the upgrade.
        user_data: UIn,
        /// The negotiated protocol.
        protocol: TP,
        /// Where the entry stood in the inbound collection.
        index: usize,
    },
    /// An inbound upgrade failed or timed out: tell the handler.  Its
    /// entry left the inbound collection at `index`.
    NotifyListenUpgradeError {
        /// The tag of the upgrade.
        user_data: UIn,
        /// Why it failed.
        error: UpgradeError<UE>,
        /// Where the entry stood in the inbound collection.
        index: usize,
    },
    /// The muxer delivered a new address: tell the handler and also yield
    /// the change to the caller, in this same poll.
    AddressChanged(A),
    /// A queued request claimed the muxer's new outbound substream: apply
    /// the upgrade, under the given negotiation version, with the
    /// request's still-running deadline.
    OutboundNegotiating {
        /// The upgrade the request carried.
        upgrade: POut,
        /// The negotiation version to use.
        version: Version,
    },
    /// A new inbound substream was accepted.  If the normalized protocol
    /// list changed, deliver it to the handler before the negotiation
    /// starts.
    InboundNegotiating {
        /// The new normalized protocol list, if it differs from the last
        /// one delivered.
        protocols_change: Option<Vec<Vec<u8>>>,
    },
    /// Every subsystem is pending; the connection waits.
    Pending,
}

/// Whether the upgrade entry at `i` has timed out at instant `now`.
pub open spec fn upgrade_timed_out<U>(s: Seq<SubstreamUpgrade<U>>, now: u64, i: int) -> bool {
    0 <= i < s.len() && s[i].spec_deadline() <= now
}

/// Whether `i` is the least index of a timed-out upgrade entry.
pub open spec fn is_first_upgrade_timeout<U>(s: Seq<SubstreamUpgrade<U>>, now: u64, i: int) -> bool {
    upgrade_timed_out(s, now, i) && forall|j: int| 0 <= j < i ==> !upgrade_timed_out(s, now, j)
}

/// Whether some upgrade entry has timed out.
pub open spec fn has_upgrade_timeout<U>(s: Seq<SubstreamUpgrade<U>>, now: u64) -> bool {
    exists|i: int| upgrade_timed_out(s, now, i)
}

/// The least index of a timed-out upgrade entry.
pub open spec fn first_upgrade_timeout<U>(s: Seq<SubstreamUpgrade<U>>, now: u64) -> int {
    choose|i: int| is_first_upgrade_timeout(s, now, i)
}

/// A multiplexed connection to a peer, as the decision core of its
/// driver.
///
/// Generic in the handler's tags for inbound (`UIn`) and outbound
/// (`UOut`) substreams and in the outbound upgrade values (`POut`) it
/// carries; the muxer, the handler and the upgrade futures themselves
/// live with the event loop, which reports their answers to
/// [`Connection::step`].
pub struct Connection<UIn, UOut, POut> {
    /// All upgrades that wait for a new outbound substream.  The upgrade
    /// timeout is already ticking here, so a request may time out before
    /// the remote provides a stream.
    requested: Vec<SubstreamRequested<UOut, POut>>,
    /// In-flight upgrades of incoming substreams.
    negotiating_in: Vec<SubstreamUpgrade<UIn>>,
    /// In-flight upgrades of outgoing substreams.
    negotiating_out: Vec<SubstreamUpgrade<UOut>>,
    /// The currently planned connection shutdown.
    shutdown: Shutdown,
    /// The substream upgrade protocol override, if any; applied to
    /// outbound upgrades only.
    substream_upgrade_protocol_override: Option<Version>,
    /// The maximum number of inbound streams concurrently negotiating on
    /// the connection.  New inbound streams exceeding the limit are not
    /// accepted and are thus dropped and reset by the muxer layer.
    max_negotiating_inbound_streams: usize,
    /// The last normalized protocol list delivered to the handler.
    supported_protocols: Vec<Vec<u8>>,
}

impl<UIn, UOut, POut> Connection<UIn, UOut, POut> {
    /// The pending outbound requests, in queue order.
    pub closed spec fn requested_entries(self) -> Seq<SubstreamRequested<UOut, POut>> {
        self.requested@
    }

    /// The in-flight inbound upgrades.
    pub closed spec fn negotiating_in_entries(self) -> Seq<SubstreamUpgrade<UIn>> {
        self.negotiating_in@
    }

    /// The in-flight outbound upgrades.
    pub closed spec fn negotiating_out_entries(self) -> Seq<SubstreamUpgrade<UOut>> {
        self.negotiating_out@
    }

    /// The planned shutdown.
    pub closed spec fn shutdown_state(self) -> Shutdown {
        self.shutdown
    }

    /// The configured outbound upgrade version override.
    pub closed spec fn version_override(self) -> Option<Version> {
        self.substream_upgrade_protocol_override
    }

    /// The configured cap on concurrently negotiating inbound streams.
    pub closed spec fn max_negotiating(self) -> int {
        self.max_negotiating_inbound_streams as int
    }

    /// The last normalized protocol list delivered to the handler.
    pub closed spec fn supported(self) -> Seq<Seq<u8>> {
        name_seq(self.supported_protocols@)
    }

    /// Well-formedness: the inbound set respects the configured cap, and
    /// every in-flight upgrade still owns its tag.
    pub open spec fn wf(self) -> bool {
        &&& self.negotiating_in_entries().len() <= self.max_negotiating()
        &&& forall|i: int|
            0 <= i < self.negotiating_in_entries().len()
                ==> (#[trigger] self.negotiating_in_entries()[i]).is_live()
        &&& forall|i: int|
            0 <= i < self.negotiating_out_entries().len()
                ==> (#[trigger] self.negotiating_out_entries()[i]).is_live()
    }

    /// Whether no substream is requested or negotiating, in either
    /// direction.  Only then may a planned shutdown be acted upon.
    pub open spec fn streams_idle(self) -> bool {
        &&& self.requested_entries().len() == 0
        &&& self.negotiating_in_entries().len() == 0
        &&& self.negotiating_out_entries().len() == 0
    }

    /// Whether the pending request at `i` would resolve at instant `now`:
    /// it was extracted, or its deadline has passed while waiting.
    pub open spec fn req_finished(self, now: u64, i: int) -> bool {
        &&& 0 <= i < self.requested_entries().len()
        &&& (self.requested_entries()[i] is Done || self.requested_entries()[i].spec_deadline()
            <= now)
    }

    /// Whether `i` is the least index of a resolving request.
    pub open spec fn is_first_req_finished(self, now: u64, i: int) -> bool {
        self.req_finished(now, i) && forall|j: int| 0 <= j < i ==> !self.req_finished(now, j)
    }

    /// Whether some pending request resolves at instant `now`.
    pub open spec fn has_req_finished(self, now: u64) -> bool {
        exists|i: int| self.req_finished(now, i)
    }

    /// The least index of a resolving request.
    pub open spec fn first_req_finished(self, now: u64) -> int {
        choose|i: int| self.is_first_req_finished(now, i)
    }

    /// Builds a new connection driver with the given configuration.
    /// Nothing is requested or negotiating yet, no shutdown is planned,
    /// and no protocol list has been delivered to the handler.
    pub fn new(
        substream_upgrade_protocol_override: Option<Version>,
        max_negotiating_inbound_streams: usize,
    ) -> (r: Self)
        ensures
            r.wf(),
            r.streams_idle(),
            r.shutdown_state() == Shutdown::NoPlan,
            r.version_override() == substream_upgrade_protocol_override,
            r.max_negotiating() == max_negotiating_inbound_streams,
            r.supported() == Seq::<Seq<u8>>::empty(),
    {
        let r = Connection {
            requested: Vec::new(),
            negotiating_in: Vec::new(),
            negotiating_out: Vec::new(),
            shutdown: Shutdown::NoPlan,
            substream_upgrade_protocol_override,
            max_negotiating_inbound_streams,
            supported_protocols: Vec::new(),
        };
        proof {
            assert(r.supported() =~= Seq::<Seq<u8>>::empty());
        }
        r
    }

    /// The relation between the states before and after one step: the
    /// four mutable pieces take the given values; the configuration is
    /// kept.
    pub open spec fn stepped(
        pre: Self,
        post: Self,
        req: Seq<SubstreamRequested<UOut, POut>>,
        out: Seq<SubstreamUpgrade<UOut>>,
        inn: Seq<SubstreamUpgrade<UIn>>,
        sup: Seq<Seq<u8>>,
        shut: Shutdown,
    ) -> bool {
        &&& post.requested_entries() == req
        &&& post.negotiating_out_entries() == out
        &&& post.negotiating_in_entries() == inn
        &&& post.supported() == sup
        &&& post.shutdown_state() == shut
        &&& post.version_override() == pre.version_override()
        &&& post.max_negotiating() == pre.max_negotiating()
    }

    /// Whether none of the four prioritised sources — resolving requests,
    /// the handler, outbound upgrades, inbound upgrades — can make
    /// progress, so that the step falls through to keep-alive handling
    /// and the muxer.
    pub open spec fn ladder_quiet(
        self,
        now: u64,
        handler_pending: bool,
        out_settled_pending: bool,
        in_settled_pending: bool,
    ) -> bool {
        &&& !self.has_req_finished(now)
        &&& handler_pending
        &&& !has_upgrade_timeout(self.negotiating_out_entries(), now)
        &&& out_settled_pending
        &&& !has_upgrade_timeout(self.negotiating_in_entries(), now)
        &&& in_settled_pending
    }

    /// One walk of the priority ladder at instant `now`, with the
    /// answers of every asynchronous collaborator given as plain values.
    ///
    /// The first rung that can make progress is applied; every later
    /// answer is left untouched (the event loop gathers fresh ones before
    /// the next step).  `out_settled` and `in_settled` report a settled
    /// negotiation by index into the respective collection; the event
    /// loop keeps its futures aligned with those collections by mirroring
    /// the removals and pushes this contract states.
    pub fn step<T, E, I, A, TP, UE>(
        &mut self,
        now: u64,
        handler: HandlerPoll<POut, UOut, T, E>,
        out_settled: UpgradeSettled<TP, UE>,
        in_settled: UpgradeSettled<TP, UE>,
        keep_alive: KeepAlive,
        muxer_event: MuxerEvent<A, I>,
        muxer_outbound: StreamPoll<I>,
        muxer_inbound: StreamPoll<I>,
        listen: ListenProtocol<UIn>,
    ) -> (r: Step<T, E, I, A, UIn, UOut, POut, TP, UE>)
        requires
            old(self).wf(),
            out_settled matches UpgradeSettled::At { index, .. } ==> index < old(
                self,
            ).negotiating_out_entries().len(),
            in_settled matches UpgradeSettled::At { index, .. } ==> index < old(
                self,
            ).negotiating_in_entries().len(),
        ensures
            final(self).wf(),
            // Rung 1: shed a resolving outbound request; a timed-out one
            // reports a dial timeout to the handler.
            old(self).has_req_finished(now) ==> ({
                let f = old(self).first_req_finished(now);
                &&& Self::stepped(
                    *old(self),
                    *final(self),
                    old(self).requested_entries().remove(f),
                    old(self).negotiating_out_entries(),
                    old(self).negotiating_in_entries(),
                    old(self).supported(),
                    old(self).shutdown_state(),
                )
                &&& (old(self).requested_entries()[f] is Done ==> r is RequestCompleted)
                &&& (old(self).requested_entries()[f] is Waiting ==> r is NotifyDialTimeout
                    && r->NotifyDialTimeout_user_data == old(self).requested_entries()[
                    f
                ].spec_user_data())
            }),
            // Rung 2: the handler's own answer.
            !old(self).has_req_finished(now) ==> (match handler {
                HandlerPoll::Pending => true,
                HandlerPoll::OutboundSubstreamRequest { upgrade, user_data, timeout } => {
                    &&& r is RequestQueued
                    &&& Self::stepped(
                        *old(self),
                        *final(self),
                        old(self).requested_entries().push(
                            SubstreamRequested::Waiting {
                                user_data,
                                deadline: spec_deadline_at(now, timeout),
                                upgrade,
                            },
                        ),
                        old(self).negotiating_out_entries(),
                        old(self).negotiating_in_entries(),
                        old(self).supported(),
                        old(self).shutdown_state(),
                    )
                },
                HandlerPoll::Custom(event) => r is HandlerCustom && r->HandlerCustom_0 == event
                    && *final(self) == *old(self),
                HandlerPoll::Close(e) => r is Closed && r->Closed_0 is Handler
                    && r->Closed_0->Handler_0 == e && *final(self) == *old(self),
            }),
            // Rung 3: outbound upgrades — timeouts first, then a settled
            // negotiation, reported to the handler either way.
            (!old(self).has_req_finished(now) && handler is Pending && has_upgrade_timeout(
                old(self).negotiating_out_entries(),
                now,
            )) ==> ({
                let f = first_upgrade_timeout(old(self).negotiating_out_entries(), now);
                &&& r is NotifyDialUpgradeError
                &&& r->NotifyDialUpgradeError_user_data == old(
                    self,
                ).negotiating_out_entries()[f].spec_user_data()
                &&& r->NotifyDialUpgradeError_error == UpgradeError::<UE>::Timeout
                &&& r->NotifyDialUpgradeError_index == f
                &&& Self::stepped(
                    *old(self),
                    *final(self),
                    old(self).requested_entries(),
                    old(self).negotiating_out_entries().remove(f),
                    old(self).negotiating_in_entries(),
                    old(self).supported(),
                    old(self).shutdown_state(),
                )
            }),
            (!old(self).has_req_finished(now) && handler is Pending && !has_upgrade_timeout(
                old(self).negotiating_out_entries(),
                now,
            )) ==> (match out_settled {
                UpgradeSettled::Pending => true,
                UpgradeSettled::At { index, outcome } => {
                    &&& Self::stepped(
                        *old(self),
                        *final(self),
                        old(self).requested_entries(),
                        old(self).negotiating_out_entries().remove(index as int),
                        old(self).negotiating_in_entries(),
                        old(self).supported(),
                        old(self).shutdown_state(),
                    )
                    &&& (outcome matches Ok(protocol) ==> r is NotifyFullyNegotiatedOutbound
                        && r->NotifyFullyNegotiatedOutbound_user_data == old(
                        self,
                    ).negotiating_out_entries()[index as int].spec_user_data()
                        && r->NotifyFullyNegotiatedOutbound_protocol == protocol
                        && r->NotifyFullyNegotiatedOutbound_index == index)
                    &&& (outcome matches Err(e) ==> r is NotifyDialUpgradeError
                        && r->NotifyDialUpgradeError_user_data == old(
                        self,
                    ).negotiating_out_entries()[index as int].spec_user_data()
                        && r->NotifyDialUpgradeError_error == UpgradeError::Upgrade(e)
                        && r->NotifyDialUpgradeError_index == index)
                },
            }),
            // Rung 4: inbound upgrades, in the same way.
            (!old(self).has_req_finished(now) && handler is Pending && !has_upgrade_timeout(
                old(self).negotiating_out_entries(),
                now,
            ) && out_settled is Pending && has_upgrade_timeout(
                old(self).negotiating_in_entries(),
                now,
            )) ==> ({
                let f = first_upgrade_timeout(old(self).negotiating_in_entries(), now);
                &&& r is NotifyListenUpgradeError
                &&& r->NotifyListenUpgradeError_user_data == old(
                    self,
                ).negotiating_in_entries()[f].spec_user_data()
                &&& r->NotifyListenUpgradeError_error == UpgradeError::<UE>::Timeout
                &&& r->NotifyListenUpgradeError_index == f
                &&& Self::stepped(
                    *old(self),
                    *final(self),
                    old(self).requested_entries(),
                    old(self).negotiating_out_entries(),
                    old(self).negotiating_in_entries().remove(f),
                    old(self).supported(),
                    old(self).shutdown_state(),
                )
            }),
            (!old(self).has_req_finished(now) && handler is Pending && !has_upgrade_timeout(
                old(self).negotiating_out_entries(),
                now,
            ) && out_settled is Pending && !has_upgrade_timeout(
                old(self).negotiating_in_entries(),
                now,
            )) ==> (match in_settled {
                UpgradeSettled::Pending => true,
                UpgradeSettled::At { index, outcome } => {
                    &&& Self::stepped(
                        *old(self),
                        *final(self),
                        old(self).requested_entries(),
                        old(self).negotiating_out_entries(),
                        old(self).negotiating_in_entries().remove(index as int),
                        old(self).supported(),
                        old(self).shutdown_state(),
                    )
                    &&& (outcome matches Ok(protocol) ==> r is NotifyFullyNegotiatedInbound
                        && r->NotifyFullyNegotiatedInbound_user_data == old(
                        self,
                    ).negotiating_in_entries()[index as int].spec_user_data()
                        && r->NotifyFullyNegotiatedInbound_protocol == protocol
                        && r->NotifyFullyNegotiatedInbound_index == index)
                    &&& (outcome matches Err(e) ==> r is NotifyListenUpgradeError
                        && r->NotifyListenUpgradeError_user_data == old(
                        self,
                    ).negotiating_in_entries()[index as int].spec_user_data()
                        && r->NotifyListenUpgradeError_error == UpgradeError::Upgrade(e)
                        && r->NotifyListenUpgradeError_index == index)
                },
            }),
            // Rung 5: once the four sources are quiet, the handler's
            // keep-alive intent reshapes the shutdown plan, whatever
            // happens next.
            old(self).ladder_quiet(
                now,
                handler is Pending,
                out_settled is Pending,
                in_settled is Pending,
            ) ==> final(self).shutdown_state() == next_shutdown(
                old(self).shutdown_state(),
                keep_alive,
            ),
            // Rung 6: the shutdown plan is acted upon only while idle.
            old(self).ladder_quiet(
                now,
                handler is Pending,
                out_settled is Pending,
                in_settled is Pending,
            ) && old(self).streams_idle() && shutdown_fires(
                next_shutdown(old(self).shutdown_state(), keep_alive),
                now,
            ) ==> r is Closed && r->Closed_0 is KeepAliveTimeout && Self::stepped(
                *old(self),
                *final(self),
                old(self).requested_entries(),
                old(self).negotiating_out_entries(),
                old(self).negotiating_in_entries(),
                old(self).supported(),
                next_shutdown(old(self).shutdown_state(), keep_alive),
            ),
            // The connection never closes for keep-alive reasons while a
            // substream is requested or negotiating.
            r is Closed && r->Closed_0 is KeepAliveTimeout ==> old(self).streams_idle(),
            // Rung 7: muxer events.
            old(self).ladder_quiet(
                now,
                handler is Pending,
                out_settled is Pending,
                in_settled is Pending,
            ) && !(old(self).streams_idle() && shutdown_fires(
                next_shutdown(old(self).shutdown_state(), keep_alive),
                now,
            )) ==> (match muxer_event {
                MuxerEvent::Pending => true,
                MuxerEvent::AddressChange(a) => r is AddressChanged && r->AddressChanged_0 == a
                    && Self::stepped(
                    *old(self),
                    *final(self),
                    old(self).requested_entries(),
                    old(self).negotiating_out_entries(),
                    old(self).negotiating_in_entries(),
                    old(self).supported(),
                    next_shutdown(old(self).shutdown_state(), keep_alive),
                ),
                MuxerEvent::Failed(e) => r is Closed && r->Closed_0 is IO && r->Closed_0->IO_0
                    == e,
            }),
            // Rung 8: a queued request claims a fresh outbound substream;
            // its deadline keeps ticking into the negotiation.
            old(self).ladder_quiet(
                now,
                handler is Pending,
                out_settled is Pending,
                in_settled is Pending,
            ) && !(old(self).streams_idle() && shutdown_fires(
                next_shutdown(old(self).shutdown_state(), keep_alive),
                now,
            )) && muxer_event is Pending && old(self).requested_entries().len() > 0 ==> (match muxer_outbound {
                StreamPoll::Pending => true,
                StreamPoll::Ready => {
                    &&& r is OutboundNegotiating
                    &&& r->OutboundNegotiating_upgrade == old(
                        self,
                    ).requested_entries()[0].spec_upgrade()
                    &&& r->OutboundNegotiating_version == spec_effective_version(
                        old(self).version_override(),
                    )
                    &&& Self::stepped(
                        *old(self),
                        *final(self),
                        old(self).requested_entries().update(0, SubstreamRequested::Done),
                        old(self).negotiating_out_entries().push(
                            SubstreamUpgrade::spec_new(
                                old(self).requested_entries()[0].spec_user_data(),
                                old(self).requested_entries()[0].spec_deadline(),
                            ),
                        ),
                        old(self).negotiating_in_entries(),
                        old(self).supported(),
                        next_shutdown(old(self).shutdown_state(), keep_alive),
                    )
                },
                StreamPoll::Failed(e) => r is Closed && r->Closed_0 is IO && r->Closed_0->IO_0
                    == e,
            }),
            // Rung 9: a fresh inbound substream is accepted while under
            // the cap; a changed normalized protocol list is delivered to
            // the handler before the first substream negotiated under it.
            old(self).ladder_quiet(
                now,
                handler is Pending,
                out_settled is Pending,
                in_settled is Pending,
            ) && !(old(self).streams_idle() && shutdown_fires(
                next_shutdown(old(self).shutdown_state(), keep_alive),
                now,
            )) && muxer_event is Pending && (old(self).requested_entries().len() > 0
                ==> muxer_outbound is Pending) && old(self).negotiating_in_entries().len() < old(
                self,
            ).max_negotiating() ==> (match muxer_inbound {
                StreamPoll::Pending => true,
                StreamPoll::Ready => {
                    &&& r is InboundNegotiating
                    &&& (r->InboundNegotiating_protocols_change is Some <==> normalized(
                        name_seq(listen.protocols@),
                    ) != old(self).supported())
                    &&& (r->InboundNegotiating_protocols_change matches Some(p) ==> name_seq(p@)
                        == normalized(name_seq(listen.protocols@)))
                    &&& Self::stepped(
                        *old(self),
                        *final(self),
                        old(self).requested_entries(),
                        old(self).negotiating_out_entries(),
                        old(self).negotiating_in_entries().push(
                            SubstreamUpgrade::spec_new(
                                listen.user_data,
                                spec_deadline_at(now, listen.timeout),
                            ),
                        ),
                        normalized(name_seq(listen.protocols@)),
                        next_shutdown(old(self).shutdown_state(), keep_alive),
                    )
                },
                StreamPoll::Failed(e) => r is Closed && r->Closed_0 is IO && r->Closed_0->IO_0
                    == e,
            }),
            // Nothing could progress: the connection waits.
            old(self).ladder_quiet(
                now,
                handler is Pending,
                out_settled is Pending,
                in_settled is Pending,
            ) && !(old(self).streams_idle() && shutdown_fires(
                next_shutdown(old(self).shutdown_state(), keep_alive),
                now,
            )) && muxer_event is Pending && (old(self).requested_entries().len() > 0
                ==> muxer_outbound is Pending) && (old(self).negotiating_in_entries().len() < old(
                self,
            ).max_negotiating() ==> muxer_inbound is Pending) ==> r is Pending && Self::stepped(
                *old(self),
                *final(self),
                old(self).requested_entries(),
                old(self).negotiating_out_entries(),
                old(self).negotiating_in_entries(),
                old(self).supported(),
                next_shutdown(old(self).shutdown_state(), keep_alive),
            ),
    {
        // Rung 1: requested substreams that resolve at this instant.
        let nreq = self.requested.len();
        let fin = self.find_finished_request(now);
        if fin < nreq {
            proof {
                assert(self.is_first_req_finished(now, fin as int));
                assert(self.has_req_finished(now));
                let f = self.first_req_finished(now);
                assert(self.is_first_req_finished(now, f));
                if f < fin as int {
                    assert(self.req_finished(now, f));
                } else if (fin as int) < f {
                    assert(self.req_finished(now, fin as int));
                }
                assert(f == fin as int);
            }
            let mut entry = self.requested.remove(fin);
            let res = entry.poll(now);
            match res {
                RequestedPoll::Completed => {
                    return Step::RequestCompleted;
                },
                RequestedPoll::TimedOut(user_data) => {
                    return Step::NotifyDialTimeout { user_data };
                },
                RequestedPoll::Pending => {
                    return vstd::pervasive::unreached();
                },
            }
        }
        // Rung 2: the handler.
        match handler {
            HandlerPoll::Pending => {},
            HandlerPoll::OutboundSubstreamRequest { upgrade, user_data, timeout } => {
                let deadline = deadline_at(now, timeout);
                self.requested.push(SubstreamRequested::new(user_data, deadline, upgrade));
                return Step::RequestQueued;
            },
            HandlerPoll::Custom(event) => {
                return Step::HandlerCustom(event);
            },
            HandlerPoll::Close(e) => {
                return Step::Closed(ConnectionError::Handler(e));
            },
        }
        // Rung 3: outbound upgrades.
        let nout = self.negotiating_out.len();
        let tout = find_timed_out_upgrade(&self.negotiating_out, now);
        if tout < nout {
            proof {
                let s = self.negotiating_out_entries();
                let f = first_upgrade_timeout(s, now);
                assert(is_first_upgrade_timeout(s, now, f));
                if f < tout as int {
                    assert(upgrade_timed_out(s, now, f));
                } else if (tout as int) < f {
                    assert(upgrade_timed_out(s, now, tout as int));
                }
                assert(f == tout as int);
            }
            let mut entry = self.negotiating_out.remove(tout);
            let res = entry.poll(now, UpgradeProgress::<TP, UE>::Pending);
            match res {
                UpgradePoll::Finished { user_data, result } => match result {
                    Err(error) => {
                        return Step::NotifyDialUpgradeError { user_data, error, index: tout };
                    },
                    Ok(_) => {
                        return vstd::pervasive::unreached();
                    },
                },
                UpgradePoll::Pending => {
                    return vstd::pervasive::unreached();
                },
            }
        }
        match out_settled {
            UpgradeSettled::Pending => {},
            UpgradeSettled::At { index, outcome } => {
                proof {
                    assert(!upgrade_timed_out(self.negotiating_out_entries(), now, index as int));
                }
                let mut entry = self.negotiating_out.remove(index);
                let res = entry.poll(now, UpgradeProgress::Resolved(outcome));
                match res {
                    UpgradePoll::Finished { user_data, result } => match result {
                        Ok(protocol) => {
                            return Step::NotifyFullyNegotiatedOutbound {
                                user_data,
                                protocol,
                                index,
                            };
                        },
                        Err(error) => {
                            return Step::NotifyDialUpgradeError { user_data, error, index };
                        },
                    },
                    UpgradePoll::Pending => {
                        return vstd::pervasive::unreached();
                    },
                }
            },
        }
        // Rung 4: inbound upgrades.
        let nin = self.negotiating_in.len();
        let tin = find_timed_out_upgrade(&self.negotiating_in, now);
        if tin < nin {
            proof {
                let s = self.negotiating_in_entries();
                let f = first_upgrade_timeout(s, now);
                assert(is_first_upgrade_timeout(s, now, f));
                if f < tin as int {
                    assert(upgrade_timed_out(s, now, f));
                } else if (tin as int) < f {
                    assert(upgrade_timed_out(s, now, tin as int));
                }
                assert(f == tin as int);
            }
            let mut entry = self.negotiating_in.remove(tin);
            let res = entry.poll(now, UpgradeProgress::<TP, UE>::Pending);
            match res {
                UpgradePoll::Finished { user_data, result } => match result {
                    Err(error) => {
                        return Step::NotifyListenUpgradeError { user_data, error, index: tin };
                    },
                    Ok(_) => {
                        return vstd::pervasive::unreached();
                    },
                },
                UpgradePoll::Pending => {
                    return vstd::pervasive::unreached();
                },
            }
        }
        match in_settled {
            UpgradeSettled::Pending => {},
            UpgradeSettled::At { index, outcome } => {
                proof {
                    assert(!upgrade_timed_out(self.negotiating_in_entries(), now, index as int));
                }
                let mut entry = self.negotiating_in.remove(index);
                let res = entry.poll(now, UpgradeProgress::Resolved(outcome));
                match res {
                    UpgradePoll::Finished { user_data, result } => match result {
                        Ok(protocol) => {
                            return Step::NotifyFullyNegotiatedInbound {
                                user_data,
                                protocol,
                                index,
                            };
                        },
                        Err(error) => {
                            return Step::NotifyListenUpgradeError { user_data, error, index };
                        },
                    },
                    UpgradePoll::Pending => {
                        return vstd::pervasive::unreached();
                    },
                }
            },
        }
        // Rung 5: the keep-alive intent reshapes the shutdown plan.
        self.shutdown = apply_keep_alive(self.shutdown, keep_alive);
        // Rung 6: while idle, a firing plan closes the connection.
        if self.requested.len() == 0 && self.negotiating_out.len() == 0 && self.negotiating_in.len()
            == 0 {
            if shutdown_check(&self.shutdown, now) {
                return Step::Closed(ConnectionError::KeepAliveTimeout);
            }
        }
        // Rung 7: muxer events.
        match muxer_event {
            MuxerEvent::Pending => {},
            MuxerEvent::AddressChange(a) => {
                return Step::AddressChanged(a);
            },
            MuxerEvent::Failed(e) => {
                return Step::Closed(ConnectionError::IO(e));
            },
        }
        // Rung 8: hand the muxer's new outbound substream to the first
        // waiting request.
        if self.requested.len() > 0 {
            match muxer_outbound {
                StreamPoll::Pending => {},
                StreamPoll::Ready => {
                    proof {
                        assert(!old(self).req_finished(now, 0));
                    }
                    let mut entry = self.requested.remove(0);
                    let (user_data, deadline, upgrade) = entry.extract();
                    self.requested.insert(0, entry);
                    self.negotiating_out.push(SubstreamUpgrade::new(user_data, deadline));
                    let version = effective_version(self.substream_upgrade_protocol_override);
                    proof {
                        assert(self.requested_entries() =~= old(self).requested_entries().update(
                            0,
                            SubstreamRequested::Done,
                        ));
                    }
                    return Step::OutboundNegotiating { upgrade, version };
                },
                StreamPoll::Failed(e) => {
                    return Step::Closed(ConnectionError::IO(e));
                },
            }
        }
        // Rung 9: accept a fresh inbound substream while under the cap.
        if self.negotiating_in.len() < self.max_negotiating_inbound_streams {
            match muxer_inbound {
                StreamPoll::Pending => {},
                StreamPoll::Ready => {
                    let ListenProtocol { protocols, user_data, timeout } = listen;
                    let new_protocols = normalize_protocols(&protocols);
                    let changed = !protocol_lists_eq(&new_protocols, &self.supported_protocols);
                    let protocols_change: Option<Vec<Vec<u8>>> = if changed {
                        self.supported_protocols = clone_protocol_list(&new_protocols);
                        Some(new_protocols)
                    } else {
                        None
                    };
                    let deadline = deadline_at(now, timeout);
                    self.negotiating_in.push(SubstreamUpgrade::new(user_data, deadline));
                    return Step::InboundNegotiating { protocols_change };
                },
                StreamPoll::Failed(e) => {
                    return Step::Closed(ConnectionError::IO(e));
                },
            }
        }
        Step::Pending
    }

    /// The number of outbound requests still queued (extracted ones
    /// included until they are shed).
    pub fn requested_len(&self) -> (r: usize)
        ensures
            r == self.requested_entries().len(),
    {
        self.requested.len()
    }

    /// The number of inbound upgrades currently negotiating.
    pub fn negotiating_in_len(&self) -> (r: usize)
        ensures
            r == self.negotiating_in_entries().len(),
    {
        self.negotiating_in.len()
    }

    /// The number of outbound upgrades currently negotiating.
    pub fn negotiating_out_len(&self) -> (r: usize)
        ensures
            r == self.negotiating_out_entries().len(),
    {
        self.negotiating_out.len()
    }

    /// Finds the least index of a resolving request, or the length when
    /// there is none.
    fn find_finished_request(&self, now: u64) -> (r: usize)
        ensures
            r <= self.requested_entries().len(),
            r < self.requested_entries().len() ==> self.is_first_req_finished(now, r as int),
            r == self.requested_entries().len() ==> !self.has_req_finished(now),
    {
        let n = self.requested.len();
        let mut k: usize = 0;
        while k < n
            invariant
                k <= n,
                n == self.requested_entries().len(),
                forall|j: int| 0 <= j < k ==> !self.req_finished(now, j),
            decreases n - k,
        {
            let resolving = match &self.requested[k] {
                SubstreamRequested::Done => true,
                SubstreamRequested::Waiting { deadline, .. } => *deadline <= now,
            };
            if resolving {
                return k;
            }
            k = k + 1;
        }
        k
    }
}

/// Finds the least index of a timed-out upgrade entry, or the length when
/// there is none.
fn find_timed_out_upgrade<U>(v: &Vec<SubstreamUpgrade<U>>, now: u64) -> (r: usize)
    ensures
        r <= v@.len(),
        r < v@.len() ==> is_first_upgrade_timeout(v@, now, r as int),
        r == v@.len() ==> !has_upgrade_timeout(v@, now),
{
    let n = v.len();
    let mut k: usize = 0;
    while k < n
        invariant
            k <= n,
            n == v@.len(),
            forall|j: int| 0 <= j < k ==> !upgrade_timed_out(v@, now, j),
        decreases n - k,
    {
        if v[k].deadline_passed(now) {
            return k;
        }
        k = k + 1;
    }
    k
}

proof fn lemma_inbound_cap_prefix<UIn, UOut, POut>(
    states: Seq<Connection<UIn, UOut, POut>>,
    k: int,
    i: int,
)
    requires
        k >= 0,
        0 <= i < states.len(),
        states[0].negotiating_in_entries().len() == 0,
        forall|j: int|
            0 <= j < states.len() - 1 ==> ((#[trigger] states[j].negotiating_in_entries().len() < k
                ==> states[j + 1].negotiating_in_entries().len() == states[
                j
            ].negotiating_in_entries().len() + 1) && (states[j].negotiating_in_entries().len() >= k
                ==> states[j + 1].negotiating_in_entries().len() == states[
                j
            ].negotiating_in_entries().len())),
    ensures
        states[i].negotiating_in_entries().len() == if i <= k {
            i
        } else {
            k
        },
    decreases i,
{
    if i > 0 {
        lemma_inbound_cap_prefix(states, k, i - 1);
        assert(states[i - 1].negotiating_in_entries().len() < k || states[
            i - 1
        ].negotiating_in_entries().len() >= k);
    }
}

/// Law: opening one inbound substream per step on a driver whose inbound
/// cap is `k` grows the negotiating set only while it is under the cap,
/// so after `n` steps exactly `min(n, k)` upgrades are negotiating and
/// the remaining `n - min(n, k)` streams were not admitted.
///
/// The premises are what [`Connection::step`] ensures for a run in which
/// the muxer always has an inbound stream ready and every other
/// subsystem stays pending: the set grows by one while under the cap and
/// is untouched at the cap.
pub proof fn lemma_inbound_cap<UIn, UOut, POut>(states: Seq<Connection<UIn, UOut, POut>>, k: int)
    requires
        k >= 0,
        states.len() >= 1,
        states[0].negotiating_in_entries().len() == 0,
        forall|j: int|
            0 <= j < states.len() - 1 ==> ((#[trigger] states[j].negotiating_in_entries().len() < k
                ==> states[j + 1].negotiating_in_entries().len() == states[
                j
            ].negotiating_in_entries().len() + 1) && (states[j].negotiating_in_entries().len() >= k
                ==> states[j + 1].negotiating_in_entries().len() == states[
                j
            ].negotiating_in_entries().len())),
    ensures
        forall|i: int|
            0 <= i < states.len() ==> #[trigger] states[i].negotiating_in_entries().len() == if i
                <= k {
                i
            } else {
                k
            },
{
    assert forall|i: int| 0 <= i < states.len() implies #[trigger] states[
        i
    ].negotiating_in_entries().len() == if i <= k {
        i
    } else {
        k
    } by {
        lemma_inbound_cap_prefix(states, k, i);
    }
}

/// Law: in a run of inbound accepts whose listen lists normalize to
/// `P_0, P_1, …`, a protocols change is delivered at step `i > 0` exactly
/// when `P_i` differs from `P_{i-1}`, and what is delivered (and
/// remembered) is `P_i` itself.
///
/// The premises are what [`Connection::step`] ensures on each accept:
/// the remembered list becomes the normalized listen list, and a change
/// is reported exactly when it differs from the list remembered before.
pub proof fn lemma_protocols_change_exactly_on_difference(
    listens: Seq<Seq<Seq<u8>>>,
    remembered: Seq<Seq<Seq<u8>>>,
    changed: Seq<bool>,
)
    requires
        remembered.len() == listens.len() + 1,
        changed.len() == listens.len(),
        forall|i: int|
            0 <= i < listens.len() ==> #[trigger] remembered[i + 1] == normalized(listens[i]),
        forall|i: int|
            0 <= i < listens.len() ==> #[trigger] changed[i] == (normalized(listens[i])
                != remembered[i]),
    ensures
        forall|i: int|
            1 <= i < listens.len() ==> #[trigger] changed[i] == (normalized(listens[i])
                != normalized(listens[i - 1])),
{
    assert forall|i: int|
        1 <= i < listens.len() implies #[trigger] changed[i] == (normalized(listens[i])
        != normalized(listens[i - 1])) by {
        assert(remembered[(i - 1) + 1] == normalized(listens[i - 1]));
        assert(remembered[i] == normalized(listens[i - 1]));
    }
}

} // verus!
