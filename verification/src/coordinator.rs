//! The coordination facade: registries, event routing and lifecycle.
//!
//! A [`Coordinator`] owns the outbound session registry (one session per
//! discovered endpoint, newest first), the single inbound-session slot, the
//! task supervisor and the engine's lifecycle state.  Engine events and
//! user operations mutate it through the functions here; everything the
//! engine or the presentation layer must then do is handed back as plain
//! values.

use vstd::prelude::*;
use crate::eta::eta_initial;
use crate::inbound::ReceiveTransferCache;
use crate::inbound::event_total;
use crate::inbound::inbound_applied;
use crate::inbound::is_terminal_state;
use crate::inbound::timeout_fires;
use crate::outbound::SendRequestState;
use crate::outbound::TransferState;
use crate::outbound::applied_event;
use crate::outbound::event_state;
use crate::protocol::ChannelMessage;
use crate::protocol::EndpointInfo;
use crate::protocol::Message;
use crate::protocol::ProtocolState;
use crate::protocol::SendInfo;
use crate::protocol::TransferAction;
use crate::protocol::TransferKind;
use crate::protocol::UserAction;
use crate::protocol::clone_strings;
use crate::supervisor::LoopingTaskHandle;
use crate::supervisor::TaskSupervisor;
use crate::supervisor::stop_all_cancelled;
use crate::supervisor::stop_all_remaining;

verus! {

/// Lifecycle state of the underlying protocol engine.
#[derive(Debug, Clone, Copy, PartialEq, Eq, Structural)]
pub enum ServiceState {
    /// The engine is not running.
    Stopped,
    /// The engine is being initialized.
    Starting,
    /// The engine is running and accepts operations.
    Running,
    /// Supervised tasks were cancelled; the engine is shutting down.
    Stopping,
    /// The engine failed to start; a retry is needed.
    Failed,
}

/// Why an operation was refused.
#[derive(Debug, Clone, Copy, PartialEq, Eq, Structural)]
pub enum CoordinatorError {
    /// The engine is stopped, failed, or mid-restart.
    ServiceUnavailable,
    /// No session exists for the named endpoint.
    UnknownEndpoint,
    /// No inbound transfer occupies the slot.
    NoInboundTransfer,
    /// A consent decision was already recorded for the inbound transfer;
    /// the first decision stands.
    AlreadyDecided,
}

/// What the caller must do after a routed event, besides notifying
/// observers of the change.
#[derive(Debug)]
pub enum RouterEffect {
    /// Engine-internal message: nothing changed, nothing to do.
    Internal,
    /// The event matched no session and was dropped.
    Dropped,
    /// A consent request created an inbound session: raise notification
    /// `notification_id`, present the consent surface, and start the
    /// sixty-second auto-decline race.
    InboundCreated { notification_id: u64 },
    /// The inbound session changed: refresh the progress surface.
    InboundUpdated,
    /// A terminal event released the inbound slot: close its surfaces.
    /// `cache` is the released entry and `last` the terminal event.
    InboundClosed { cache: ReceiveTransferCache, last: ChannelMessage },
    /// The outbound session at `index` changed.
    OutboundUpdated { index: usize },
}

/// Whether two sessions at different positions never share an endpoint id.
pub open spec fn ids_unique(rs: Seq<SendRequestState>) -> bool {
    forall|i: int, j: int|
        0 <= i < j < rs.len() ==> #[trigger] rs[i].endpoint_info.id@ != #[trigger] rs[
            j
        ].endpoint_info.id@
}

/// Whether some session exists for endpoint id `id`.
pub open spec fn has_id(rs: Seq<SendRequestState>, id: Seq<char>) -> bool {
    exists|i: int| 0 <= i < rs.len() && #[trigger] rs[i].endpoint_info.id@ == id
}

/// The position of the session for endpoint id `id` (unique when
/// `ids_unique` holds).
pub open spec fn spec_index_of(rs: Seq<SendRequestState>, id: Seq<char>) -> int {
    choose|i: int| 0 <= i < rs.len() && #[trigger] rs[i].endpoint_info.id@ == id
}

/// Whether some session currently holds the single allowed active
/// transfer: it asked for consent or is transferring.
pub open spec fn has_active(rs: Seq<SendRequestState>) -> bool {
    exists|i: int|
        0 <= i < rs.len() && (#[trigger] rs[i].transfer_state
            == TransferState::RequestedForConsent || rs[i].transfer_state
            == TransferState::OngoingTransfer)
}

/// Whether `refresh_recipients` keeps a session: only sessions that are
/// queued, awaiting consent or transferring survive a refresh.
pub open spec fn is_kept(s: SendRequestState) -> bool {
    s.transfer_state == TransferState::Queued || s.transfer_state
        == TransferState::RequestedForConsent || s.transfer_state
        == TransferState::OngoingTransfer
}

/// The sessions a refresh keeps, in their original order.
pub open spec fn kept_sessions(rs: Seq<SendRequestState>) -> Seq<SendRequestState>
    decreases rs.len(),
{
    if rs.len() == 0 {
        Seq::empty()
    } else {
        let rest = kept_sessions(rs.drop_last());
        if is_kept(rs.last()) {
            rest.push(rs.last())
        } else {
            rest
        }
    }
}

/// A refresh keeps exactly the sessions in `Queued`,
/// `RequestedForConsent` or `OngoingTransfer`: every surviving session is
/// one of those, and every such session survives.
pub proof fn lemma_refresh_keeps_exactly(rs: Seq<SendRequestState>)
    ensures
        forall|i: int|
            0 <= i < kept_sessions(rs).len() ==> is_kept(#[trigger] kept_sessions(rs)[i]),
        forall|i: int|
            0 <= i < rs.len() && is_kept(#[trigger] rs[i]) ==> kept_sessions(rs).contains(rs[i]),
        forall|i: int|
            0 <= i < rs.len() && !is_kept(#[trigger] rs[i]) ==> (rs[i].transfer_state
                == TransferState::AwaitingConsentOrIdle || rs[i].transfer_state
                == TransferState::Failed || rs[i].transfer_state == TransferState::Done),
    decreases rs.len(),
{
    if rs.len() > 0 {
        lemma_refresh_keeps_exactly(rs.drop_last());
        assert(forall|i: int| 0 <= i < rs.len() - 1 ==> #[trigger] rs[i] == rs.drop_last()[i]);
        assert forall|i: int| 0 <= i < rs.len() && is_kept(#[trigger] rs[i]) implies kept_sessions(
            rs,
        ).contains(rs[i]) by {
            if i < rs.len() - 1 {
                let j = choose|j: int|
                    0 <= j < kept_sessions(rs.drop_last()).len() && kept_sessions(rs.drop_last())[j]
                        == rs[i];
                assert(kept_sessions(rs)[j] == rs[i]);
            } else {
                assert(kept_sessions(rs).last() == rs[i]);
            }
        }
    }
}

/// The display name a send request carries for an endpoint: its name, or
/// "Unknown device" when it has none.
pub open spec fn send_name_chars(e: EndpointInfo) -> Seq<char> {
    match e.name {
        Option::Some(n) => n@,
        Option::None => "Unknown device"@,
    }
}

/// The address a send request carries for an endpoint: "ip:port", with
/// each missing part empty.
pub open spec fn send_addr_chars(e: EndpointInfo) -> Seq<char> {
    (match e.ip {
        Option::Some(s) => s@,
        Option::None => Seq::empty(),
    }).add(":"@).add(
        match e.port {
            Option::Some(p) => p@,
            Option::None => Seq::empty(),
        },
    )
}

/// Whether a session's last event leaves a send attempt in flight.
pub open spec fn session_send_active(s: SendRequestState) -> bool {
    match s.event {
        Option::Some(e) => e.is_client() && {
            let st = event_state(e);
            !(st == ProtocolState::Initial || st == ProtocolState::Disconnected || st
                == ProtocolState::Rejected || st == ProtocolState::Cancelled || st
                == ProtocolState::Finished)
        },
        Option::None => false,
    }
}

/// The composition root: engine lifecycle state, the outbound registry,
/// the single inbound slot, the task supervisor, the discovery flag and
/// the notification counter.
#[derive(Debug)]
pub struct Coordinator {
    /// Lifecycle state of the engine.
    pub service: ServiceState,
    /// Outbound sessions, one per discovered endpoint, newest first.
    pub recipients: Vec<SendRequestState>,
    /// The single inbound-session slot.
    pub inbound: Option<ReceiveTransferCache>,
    /// Handles of the running relay and listener tasks.
    pub supervisor: TaskSupervisor,
    /// Whether endpoint discovery is currently on.
    pub discovery_on: bool,
    /// Source of fresh notification identifiers.
    pub next_notification_id: u64,
}

impl Coordinator {
    /// Validity: endpoint ids are unique and every session is well-formed.
    pub open spec fn wf(self) -> bool {
        &&& ids_unique(self.recipients@)
        &&& (forall|i: int|
            0 <= i < self.recipients@.len() ==> (#[trigger] self.recipients@[i]).wf())
        &&& (match self.inbound {
            Option::Some(c) => c.wf(),
            Option::None => true,
        })
    }

    /// A coordinator with a stopped engine and empty registries.
    pub fn new() -> (r: Self)
        ensures
            r.wf(),
            r.service == ServiceState::Stopped,
            r.recipients@ == Seq::<SendRequestState>::empty(),
            r.inbound is None,
            r.supervisor.handles@ == Seq::<LoopingTaskHandle>::empty(),
            r.discovery_on == false,
            r.next_notification_id == 0,
    {
        Coordinator {
            service: ServiceState::Stopped,
            recipients: Vec::new(),
            inbound: Option::None,
            supervisor: TaskSupervisor::new(),
            discovery_on: false,
            next_notification_id: 0,
        }
    }

    /// The position of the session for `id`, if one exists.
    fn find_recipient(&self, id: &String) -> (r: Option<usize>)
        ensures
            match r {
                Option::Some(i) => i < self.recipients@.len()
                    && self.recipients@[i as int].endpoint_info.id@ == id@,
                Option::None => !has_id(self.recipients@, id@),
            },
    {
        let n: usize = self.recipients.len();
        let mut i: usize = 0;
        while i < n
            invariant
                i <= n,
                n == self.recipients@.len(),
                forall|j: int| 0 <= j < i ==> #[trigger] self.recipients@[j].endpoint_info.id@
                    != id@,
            decreases n - i,
        {
            if self.recipients[i].endpoint_info.id == *id {
                return Option::Some(i);
            }
            i = i + 1;
        }
        Option::None
    }

    /// Upserts a discovery record: a session already registered for the
    /// endpoint's id gets the fresh endpoint snapshot (latest presence and
    /// address), anything else untouched; an unknown id gets a fresh idle
    /// session at the front of the list.  Exactly one session per endpoint
    /// id exists afterwards.
    pub fn handle_discovery(&mut self, endpoint: EndpointInfo)
        requires
            old(self).wf(),
        ensures
            final(self).wf(),
            final(self).service == old(self).service,
            final(self).inbound == old(self).inbound,
            final(self).supervisor == old(self).supervisor,
            final(self).discovery_on == old(self).discovery_on,
            final(self).next_notification_id == old(self).next_notification_id,
            has_id(old(self).recipients@, endpoint.id@) ==> final(self).recipients@ == old(
                self,
            ).recipients@.update(
                spec_index_of(old(self).recipients@, endpoint.id@),
                (SendRequestState {
                    endpoint_info: endpoint,
                    ..old(self).recipients@[spec_index_of(old(self).recipients@, endpoint.id@)]
                }),
            ),
            !has_id(old(self).recipients@, endpoint.id@) ==> {
                &&& final(self).recipients@.len() == old(self).recipients@.len() + 1
                &&& final(self).recipients@.skip(1) == old(self).recipients@
                &&& final(self).recipients@[0].endpoint_info == endpoint
                &&& final(self).recipients@[0].transfer_state
                    == TransferState::AwaitingConsentOrIdle
                &&& final(self).recipients@[0].event is None
                &&& final(self).recipients@[0].files@ == Seq::<String>::empty()
                &&& final(self).recipients@[0].eta@ == eta_initial(0)
                &&& final(self).recipients@[0].device_name@ == Seq::<char>::empty()
            },
    {
        match self.find_recipient(&endpoint.id) {
            Option::Some(i) => {
                proof {
                    let s = spec_index_of(self.recipients@, endpoint.id@);
                    assert(self.recipients@[i as int].endpoint_info.id@ == endpoint.id@);
                    assert(0 <= s < self.recipients@.len() && self.recipients@[s].endpoint_info.id@
                        == endpoint.id@);
                    assert(s == i as int);
                }
                let session = &mut self.recipients[i];
                session.endpoint_info = endpoint;
            },
            Option::None => {
                let mut session = SendRequestState::new();
                session.endpoint_info = endpoint;
                self.recipients.insert(0, session);
                proof {
                    assert(final(self).recipients@.skip(1) =~= old(self).recipients@);
                }
            },
        }
    }

    /// Removes exactly the sessions whose state is `AwaitingConsentOrIdle`,
    /// `Failed` or `Done`, preserving all others in order.
    pub fn refresh_recipients(&mut self)
        requires
            old(self).wf(),
        ensures
            final(self).wf(),
            final(self).recipients@ == kept_sessions(old(self).recipients@),
            final(self).service == old(self).service,
            final(self).inbound == old(self).inbound,
            final(self).supervisor == old(self).supervisor,
            final(self).discovery_on == old(self).discovery_on,
            final(self).next_notification_id == old(self).next_notification_id,
    {
        let ghost orig = self.recipients@;
        let mut reversed: Vec<SendRequestState> = Vec::new();
        loop
            invariant
                orig == old(self).recipients@,
                self.service == old(self).service,
                self.inbound == old(self).inbound,
                self.supervisor == old(self).supervisor,
                self.discovery_on == old(self).discovery_on,
                self.next_notification_id == old(self).next_notification_id,
                reversed@.len() + self.recipients@.len() == orig.len(),
                self.recipients@ == orig.take(self.recipients@.len() as int),
                forall|j: int| 0 <= j < reversed@.len() ==> #[trigger] reversed@[j] == orig[
                    orig.len() - 1 - j
                ],
            ensures
                orig == old(self).recipients@,
                self.service == old(self).service,
                self.inbound == old(self).inbound,
                self.supervisor == old(self).supervisor,
                self.discovery_on == old(self).discovery_on,
                self.next_notification_id == old(self).next_notification_id,
                self.recipients@.len() == 0,
                reversed@.len() == orig.len(),
                forall|j: int| 0 <= j < reversed@.len() ==> #[trigger] reversed@[j] == orig[
                    orig.len() - 1 - j
                ],
            decreases self.recipients@.len(),
        {
            match self.recipients.pop() {
                Option::Some(s) => {
                    reversed.push(s);
                },
                Option::None => {
                    break ;
                },
            }
        }
        loop
            invariant
                orig == old(self).recipients@,
                self.service == old(self).service,
                self.inbound == old(self).inbound,
                self.supervisor == old(self).supervisor,
                self.discovery_on == old(self).discovery_on,
                self.next_notification_id == old(self).next_notification_id,
                reversed@.len() <= orig.len(),
                forall|j: int| 0 <= j < reversed@.len() ==> #[trigger] reversed@[j] == orig[
                    orig.len() - 1 - j
                ],
                self.recipients@ == kept_sessions(
                    orig.take((orig.len() - reversed@.len()) as int),
                ),
            ensures
                orig == old(self).recipients@,
                self.service == old(self).service,
                self.inbound == old(self).inbound,
                self.supervisor == old(self).supervisor,
                self.discovery_on == old(self).discovery_on,
                self.next_notification_id == old(self).next_notification_id,
                reversed@.len() == 0,
                self.recipients@ == kept_sessions(orig),
            decreases reversed@.len(),
        {
            let ghost processed = orig.len() - reversed@.len();
            match reversed.pop() {
                Option::Some(s) => {
                    proof {
                        assert(s == orig[processed]);
                        assert(orig.take(processed + 1).drop_last() =~= orig.take(
                            processed as int,
                        ));
                        assert(orig.take(processed + 1).last() == orig[processed]);
                    }
                    let keep: bool = match s.transfer_state {
                        TransferState::Queued
                        | TransferState::RequestedForConsent
                        | TransferState::OngoingTransfer => true,
                        TransferState::AwaitingConsentOrIdle
                        | TransferState::Failed
                        | TransferState::Done => false,
                    };
                    if keep {
                        self.recipients.push(s);
                    }
                },
                Option::None => {
                    proof {
                        assert(orig.take(orig.len() as int) =~= orig);
                    }
                    break ;
                },
            }
        }
        proof {
            lemma_kept_sessions_wf(orig);
        }
    }

    /// Whether no send attempt is currently in flight on any session, going
    /// by each session's last reported protocol state.
    pub fn is_no_file_being_send(&self) -> (r: bool)
        ensures
            r == !(exists|i: int|
                0 <= i < self.recipients@.len() && session_send_active(
                    #[trigger] self.recipients@[i],
                )),
    {
        let n: usize = self.recipients.len();
        let mut i: usize = 0;
        while i < n
            invariant
                i <= n,
                n == self.recipients@.len(),
                forall|j: int| 0 <= j < i ==> !session_send_active(
                    #[trigger] self.recipients@[j],
                ),
            decreases n - i,
        {
            let active: bool = match &self.recipients[i].event {
                Option::Some(e) => match &e.msg {
                    Message::Client(client) => match client.state {
                        Option::Some(st) => match st {
                            ProtocolState::Initial
                            | ProtocolState::Disconnected
                            | ProtocolState::Rejected
                            | ProtocolState::Cancelled
                            | ProtocolState::Finished => false,
                            _ => true,
                        },
                        Option::None => false,
                    },
                    Message::Lib { .. } => false,
                },
                Option::None => false,
            };
            if active {
                return false;
            }
            i = i + 1;
        }
        true
    }

    /// Marks discovery as running when it should be (re)started: always
    /// under `force == Some(true)`, never under `force == Some(false)`, and
    /// under `force == None` only when it is not already running.  Returns
    /// whether the caller must start the discovery task.
    pub fn start_discovery(&mut self, force: Option<bool>) -> (should_start: bool)
        ensures
            should_start == (match force {
                Option::Some(f) => f,
                Option::None => !old(self).discovery_on,
            }),
            final(self).discovery_on == (old(self).discovery_on || should_start),
            final(self).service == old(self).service,
            final(self).recipients == old(self).recipients,
            final(self).inbound == old(self).inbound,
            final(self).supervisor == old(self).supervisor,
            final(self).next_notification_id == old(self).next_notification_id,
    {
        let should_start: bool = match force {
            Option::Some(f) => f,
            Option::None => !self.discovery_on,
        };
        if should_start {
            self.discovery_on = true;
        }
        should_start
    }

    /// Marks discovery as stopped; returns whether the caller must stop the
    /// discovery task (it was running).
    pub fn stop_discovery(&mut self) -> (should_stop: bool)
        ensures
            should_stop == old(self).discovery_on,
            final(self).discovery_on == false,
            final(self).service == old(self).service,
            final(self).recipients == old(self).recipients,
            final(self).inbound == old(self).inbound,
            final(self).supervisor == old(self).supervisor,
            final(self).next_notification_id == old(self).next_notification_id,
    {
        let was_on: bool = self.discovery_on;
        self.discovery_on = false;
        was_on
    }

    /// Whether some session holds the single allowed active transfer.
    fn has_active_session(&self) -> (r: bool)
        ensures
            r == has_active(self.recipients@),
    {
        let n: usize = self.recipients.len();
        let mut i: usize = 0;
        while i < n
            invariant
                i <= n,
                n == self.recipients@.len(),
                forall|j: int|
                    0 <= j < i ==> !(#[trigger] self.recipients@[j].transfer_state
                        == TransferState::RequestedForConsent || self.recipients@[j].transfer_state
                        == TransferState::OngoingTransfer),
            decreases n - i,
        {
            match self.recipients[i].transfer_state {
                TransferState::RequestedForConsent | TransferState::OngoingTransfer => {
                    return true;
                },
                _ => {},
            }
            i = i + 1;
        }
        false
    }

    /// Requests a send of `files` to the endpoint `endpoint_id`.
    ///
    /// Refused with `ServiceUnavailable` while the engine is not running and
    /// with `UnknownEndpoint` when no session exists for the id; otherwise
    /// the session keeps the file list and, while any session already asked
    /// for consent or is transferring, becomes `Queued` — never
    /// `RequestedForConsent` — honouring the protocol's
    /// single-concurrent-transfer rule.  The returned [`SendInfo`] carries
    /// everything the engine needs: the id, the endpoint's display name
    /// ("Unknown device" when unnamed), its address as "ip:port", and the
    /// files.
    pub fn send_to(&mut self, endpoint_id: &String, files: Vec<String>) -> (r: Result<
        SendInfo,
        CoordinatorError,
    >)
        requires
            old(self).wf(),
        ensures
            final(self).wf(),
            final(self).service == old(self).service,
            final(self).inbound == old(self).inbound,
            final(self).supervisor == old(self).supervisor,
            final(self).discovery_on == old(self).discovery_on,
            final(self).next_notification_id == old(self).next_notification_id,
            old(self).service != ServiceState::Running ==> (r == Result::<
                SendInfo,
                CoordinatorError,
            >::Err(CoordinatorError::ServiceUnavailable) && final(self).recipients == old(
                self,
            ).recipients),
            (old(self).service == ServiceState::Running && !has_id(
                old(self).recipients@,
                endpoint_id@,
            )) ==> (r == Result::<SendInfo, CoordinatorError>::Err(
                CoordinatorError::UnknownEndpoint,
            ) && final(self).recipients == old(self).recipients),
            (old(self).service == ServiceState::Running && has_id(
                old(self).recipients@,
                endpoint_id@,
            )) ==> {
                let i = spec_index_of(old(self).recipients@, endpoint_id@);
                let pre = old(self).recipients@[i];
                &&& final(self).recipients@.len() == old(self).recipients@.len()
                &&& (forall|j: int|
                    0 <= j < old(self).recipients@.len() && j != i ==> final(self).recipients@[j]
                        == #[trigger] old(self).recipients@[j])
                &&& final(self).recipients@[i].transfer_state == (if has_active(
                    old(self).recipients@,
                ) {
                    TransferState::Queued
                } else {
                    pre.transfer_state
                })
                &&& final(self).recipients@[i].files@ == files@
                &&& final(self).recipients@[i].endpoint_info == pre.endpoint_info
                &&& final(self).recipients@[i].event == pre.event
                &&& final(self).recipients@[i].eta@ == pre.eta@
                &&& final(self).recipients@[i].device_name == pre.device_name
                &&& (match r {
                    Result::Ok(info) => {
                        &&& info.id@ == endpoint_id@
                        &&& info.files@ == files@
                        &&& info.name@ == send_name_chars(pre.endpoint_info)
                        &&& info.addr@ == send_addr_chars(pre.endpoint_info)
                    },
                    Result::Err(_) => false,
                })
            },
    {
        if !matches!(self.service, ServiceState::Running) {
            return Result::Err(CoordinatorError::ServiceUnavailable);
        }
        match self.find_recipient(endpoint_id) {
            Option::None => Result::Err(CoordinatorError::UnknownEndpoint),
            Option::Some(i) => {
                proof {
                    let s = spec_index_of(self.recipients@, endpoint_id@);
                    assert(self.recipients@[i as int].endpoint_info.id@ == endpoint_id@);
                    assert(0 <= s < self.recipients@.len() && self.recipients@[s].endpoint_info.id@
                        == endpoint_id@);
                    assert(s == i as int);
                }
                let queued: bool = self.has_active_session();
                let info: SendInfo = {
                    let session = &self.recipients[i];
                    let name: String = match &session.endpoint_info.name {
                        Option::Some(n) => n.clone(),
                        Option::None => String::from_str("Unknown device"),
                    };
                    let mut addr: String = match &session.endpoint_info.ip {
                        Option::Some(s) => s.clone(),
                        Option::None => String::new(),
                    };
                    addr.append(":");
                    match &session.endpoint_info.port {
                        Option::Some(p) => {
                            addr.append(p.as_str());
                        },
                        Option::None => {},
                    };
                    proof {
                        assert(addr@ =~= send_addr_chars(session.endpoint_info));
                    }
                    SendInfo {
                        id: endpoint_id.clone(),
                        name,
                        addr,
                        files: clone_strings(&files),
                    }
                };
                let session = &mut self.recipients[i];
                if queued {
                    session.transfer_state = TransferState::Queued;
                }
                session.files = files;
                proof {
                    lemma_update_session(
                        old(self).recipients@,
                        i as int,
                        final(self).recipients@[i as int],
                    );
                }
                Result::Ok(info)
            },
        }
    }

    /// Routes one message from the engine's event stream, applying it at
    /// clock reading `now`, and reports what the caller must do.
    ///
    /// Engine-internal messages change nothing.  A consent request starts
    /// the inbound session under a fresh notification identifier, unless
    /// the slot is already occupied (then the event is dropped: a late
    /// consent request must not corrupt the session in progress).  Every
    /// other client event goes by its direction: inbound events reach the
    /// slot only while its transfer id matches, where a terminal state
    /// releases the slot and anything else updates it; outbound events
    /// reach the session registered for their id and drive its state
    /// machine.  Events that match no session are dropped silently.
    pub fn route_message(&mut self, msg: ChannelMessage, now: u64) -> (r: RouterEffect)
        requires
            old(self).wf(),
            old(self).next_notification_id < u64::MAX,
        ensures
            final(self).wf(),
            final(self).service == old(self).service,
            final(self).supervisor == old(self).supervisor,
            final(self).discovery_on == old(self).discovery_on,
            !msg.is_client() ==> (*final(self) == *old(self) && r is Internal),
            (msg.is_client() && event_state(msg) == ProtocolState::WaitingForUserConsent) ==> {
                &&& final(self).recipients == old(self).recipients
                &&& (old(self).inbound is Some ==> *final(self) == *old(self) && r is Dropped)
                &&& (old(self).inbound is None ==> {
                    &&& final(self).next_notification_id == old(self).next_notification_id + 1
                    &&& (match (final(self).inbound, r) {
                        (
                            Option::Some(c),
                            RouterEffect::InboundCreated { notification_id },
                        ) => {
                            &&& notification_id == old(self).next_notification_id
                            &&& c.transfer_id == msg.id
                            &&& c.notification_id == old(self).next_notification_id
                            &&& c.state.event == msg
                            &&& c.state.user_action is None
                            &&& c.state.user_cancelled == false
                            &&& c.auto_decline_cancelled == false
                            &&& c.state.eta@ == eta_initial(
                                match event_total(msg) {
                                    Option::Some(t) => t,
                                    Option::None => 0,
                                },
                            )
                        },
                        _ => false,
                    })
                })
            },
            (msg.is_client() && event_state(msg) != ProtocolState::WaitingForUserConsent
                && msg.msg.client().kind == TransferKind::Inbound) ==> {
                &&& final(self).recipients == old(self).recipients
                &&& final(self).next_notification_id == old(self).next_notification_id
                &&& (match old(self).inbound {
                    Option::Some(pre) => {
                        if pre.transfer_id@ == msg.id@ {
                            if is_terminal_state(event_state(msg)) {
                                &&& final(self).inbound is None
                                &&& (match r {
                                    RouterEffect::InboundClosed { cache, last } => cache == pre
                                        && last == msg,
                                    _ => false,
                                })
                            } else {
                                &&& r is InboundUpdated
                                &&& (match final(self).inbound {
                                    Option::Some(post) => inbound_applied(pre, post, msg, now),
                                    Option::None => false,
                                })
                            }
                        } else {
                            *final(self) == *old(self) && r is Dropped
                        }
                    },
                    Option::None => *final(self) == *old(self) && r is Dropped,
                })
            },
            (msg.is_client() && event_state(msg) != ProtocolState::WaitingForUserConsent
                && msg.msg.client().kind == TransferKind::Outbound) ==> {
                &&& final(self).inbound == old(self).inbound
                &&& final(self).next_notification_id == old(self).next_notification_id
                &&& (has_id(old(self).recipients@, msg.id@) ==> {
                    let i = spec_index_of(old(self).recipients@, msg.id@);
                    &&& final(self).recipients@.len() == old(self).recipients@.len()
                    &&& (forall|j: int|
                        0 <= j < old(self).recipients@.len() && j != i
                            ==> final(self).recipients@[j] == #[trigger] old(self).recipients@[j])
                    &&& applied_event(
                        old(self).recipients@[i],
                        final(self).recipients@[i],
                        msg,
                        now,
                    )
                    &&& (match r {
                        RouterEffect::OutboundUpdated { index } => index == i,
                        _ => false,
                    })
                })
                &&& (!has_id(old(self).recipients@, msg.id@) ==> (*final(self) == *old(self)
                    && r is Dropped))
            },
    {
        let header: Option<(ProtocolState, TransferKind)> = match &msg.msg {
            Message::Lib { .. } => Option::None,
            Message::Client(client) => Option::Some(
                (
                    match client.state {
                        Option::Some(s) => s,
                        Option::None => ProtocolState::Initial,
                    },
                    client.kind,
                ),
            ),
        };
        let (st, kind): (ProtocolState, TransferKind) = match header {
            Option::None => {
                return RouterEffect::Internal;
            },
            Option::Some(p) => p,
        };

        if matches!(st, ProtocolState::WaitingForUserConsent) {
            if self.inbound.is_some() {
                return RouterEffect::Dropped;
            }
            let nid: u64 = self.next_notification_id;
            self.next_notification_id = nid + 1;
            let cache = ReceiveTransferCache::new(msg, nid);
            self.inbound = Option::Some(cache);
            return RouterEffect::InboundCreated { notification_id: nid };
        }

        match kind {
            TransferKind::Inbound => {
                let matches_slot: bool = match &self.inbound {
                    Option::Some(c) => c.transfer_id == msg.id,
                    Option::None => false,
                };
                if !matches_slot {
                    return RouterEffect::Dropped;
                }
                let terminal: bool = matches!(
                    st,
                    ProtocolState::Disconnected | ProtocolState::Rejected
                        | ProtocolState::Cancelled | ProtocolState::Finished,
                );
                if terminal {
                    match self.inbound.take() {
                        Option::Some(cache) => RouterEffect::InboundClosed { cache, last: msg },
                        Option::None => unreached(),
                    }
                } else {
                    match &mut self.inbound {
                        Option::Some(cache) => {
                            cache.apply_event(msg, now);
                            RouterEffect::InboundUpdated
                        },
                        Option::None => unreached(),
                    }
                }
            },
            TransferKind::Outbound => {
                match self.find_recipient(&msg.id) {
                    Option::Some(i) => {
                        proof {
                            let s = spec_index_of(self.recipients@, msg.id@);
                            assert(self.recipients@[i as int].endpoint_info.id@ == msg.id@);
                            assert(0 <= s < self.recipients@.len()
                                && self.recipients@[s].endpoint_info.id@ == msg.id@);
                            assert(s == i as int);
                        }
                        let session = &mut self.recipients[i];
                        session.apply_event(msg, now);
                        proof {
                            lemma_update_session(
                                old(self).recipients@,
                                i as int,
                                final(self).recipients@[i as int],
                            );
                        }
                        RouterEffect::OutboundUpdated { index: i }
                    },
                    Option::None => RouterEffect::Dropped,
                }
            },
        }
    }

    /// Records the user's consent decision on the inbound transfer and
    /// returns the engine action to forward.  Refused with
    /// `ServiceUnavailable` while the engine is not running, with
    /// `NoInboundTransfer` when no inbound session exists, and with
    /// `AlreadyDecided` when a decision was already recorded — the decision
    /// is write-once, so the first one stands.
    pub fn respond_to_consent(&mut self, accept: bool) -> (r: Result<
        ChannelMessage,
        CoordinatorError,
    >)
        requires
            old(self).wf(),
        ensures
            final(self).wf(),
            final(self).service == old(self).service,
            final(self).recipients == old(self).recipients,
            final(self).supervisor == old(self).supervisor,
            final(self).discovery_on == old(self).discovery_on,
            final(self).next_notification_id == old(self).next_notification_id,
            old(self).service != ServiceState::Running ==> (r == Result::<
                ChannelMessage,
                CoordinatorError,
            >::Err(CoordinatorError::ServiceUnavailable) && final(self).inbound == old(
                self,
            ).inbound),
            (old(self).service == ServiceState::Running && old(self).inbound is None) ==> (r
                == Result::<ChannelMessage, CoordinatorError>::Err(
                CoordinatorError::NoInboundTransfer,
            ) && final(self).inbound == old(self).inbound),
            (old(self).service == ServiceState::Running && old(self).inbound is Some) ==> (match
                old(self).inbound {
                Option::Some(pre) => {
                    if pre.state.user_action is None {
                        match (final(self).inbound, r) {
                            (Option::Some(post), Result::Ok(m)) => {
                                &&& post.auto_decline_cancelled
                                &&& !timeout_fires(post)
                                &&& post.state.user_action == Option::Some(
                                    if accept {
                                        UserAction::ConsentAccept
                                    } else {
                                        UserAction::ConsentDecline
                                    },
                                )
                                &&& post.state.user_cancelled == pre.state.user_cancelled
                                &&& post.state.event == pre.state.event
                                &&& post.state.eta == pre.state.eta
                                &&& post.transfer_id == pre.transfer_id
                                &&& post.notification_id == pre.notification_id
                                &&& m.id == pre.state.event.id
                                &&& m.msg == (Message::Lib {
                                    action: if accept {
                                        TransferAction::ConsentAccept
                                    } else {
                                        TransferAction::ConsentDecline
                                    },
                                })
                            },
                            _ => false,
                        }
                    } else {
                        r == Result::<ChannelMessage, CoordinatorError>::Err(
                            CoordinatorError::AlreadyDecided,
                        ) && final(self).inbound == old(self).inbound
                    }
                },
                Option::None => false,
            }),
    {
        if !matches!(self.service, ServiceState::Running) {
            return Result::Err(CoordinatorError::ServiceUnavailable);
        }
        match &mut self.inbound {
            Option::Some(cache) => {
                let action = if accept {
                    UserAction::ConsentAccept
                } else {
                    UserAction::ConsentDecline
                };
                match cache.set_user_action(action) {
                    Option::Some(m) => Result::Ok(m),
                    Option::None => Result::Err(CoordinatorError::AlreadyDecided),
                }
            },
            Option::None => Result::Err(CoordinatorError::NoInboundTransfer),
        }
    }

    /// Cancels the transfer `transfer_id`: an accepted inbound transfer
    /// with that id is marked user-cancelled (so the engine's answering
    /// `Cancelled` event is not surfaced as a sender-initiated failure —
    /// a cancel is only valid after an accept); for anything else the
    /// cancel action is built for the engine as-is and no session changes.
    /// Refused with `ServiceUnavailable` while the engine is not running.
    pub fn cancel_transfer(&mut self, transfer_id: &String) -> (r: Result<
        ChannelMessage,
        CoordinatorError,
    >)
        requires
            old(self).wf(),
        ensures
            final(self).wf(),
            final(self).service == old(self).service,
            final(self).recipients == old(self).recipients,
            final(self).supervisor == old(self).supervisor,
            final(self).discovery_on == old(self).discovery_on,
            final(self).next_notification_id == old(self).next_notification_id,
            old(self).service != ServiceState::Running ==> (r == Result::<
                ChannelMessage,
                CoordinatorError,
            >::Err(CoordinatorError::ServiceUnavailable) && final(self).inbound == old(
                self,
            ).inbound),
            old(self).service == ServiceState::Running ==> (match r {
                Result::Ok(m) => {
                    &&& m.msg == (Message::Lib { action: TransferAction::TransferCancel })
                    &&& (match old(self).inbound {
                        Option::Some(pre) => {
                            if pre.transfer_id@ == transfer_id@ && pre.state.user_action
                                == Option::Some(UserAction::ConsentAccept) {
                                match final(self).inbound {
                                    Option::Some(post) => {
                                        &&& post.auto_decline_cancelled
                                        &&& post.state.user_action == Option::Some(
                                            UserAction::TransferCancel,
                                        )
                                        &&& post.state.user_cancelled
                                        &&& post.state.event == pre.state.event
                                        &&& post.state.eta == pre.state.eta
                                        &&& post.transfer_id == pre.transfer_id
                                        &&& post.notification_id == pre.notification_id
                                        &&& m.id == pre.state.event.id
                                    },
                                    Option::None => false,
                                }
                            } else {
                                final(self).inbound == old(self).inbound && m.id@ == transfer_id@
                            }
                        },
                        Option::None => final(self).inbound == old(self).inbound && m.id@
                            == transfer_id@,
                    })
                },
                Result::Err(_) => false,
            }),
    {
        if !matches!(self.service, ServiceState::Running) {
            return Result::Err(CoordinatorError::ServiceUnavailable);
        }
        let inbound_accepted: bool = match &self.inbound {
            Option::Some(c) => c.transfer_id == *transfer_id && matches!(
                c.state.user_action,
                Option::Some(UserAction::ConsentAccept),
            ),
            Option::None => false,
        };
        if inbound_accepted {
            match &mut self.inbound {
                Option::Some(cache) => match cache.set_user_action(UserAction::TransferCancel) {
                    Option::Some(m) => Result::Ok(m),
                    Option::None => unreached(),
                },
                Option::None => unreached(),
            }
        } else {
            Result::Ok(
                ChannelMessage {
                    id: transfer_id.clone(),
                    msg: Message::Lib { action: TransferAction::TransferCancel },
                },
            )
        }
    }

    /// The auto-decline timer for transfer `transfer_id` fired.  A decline
    /// is synthesized — and the engine action to forward returned — exactly
    /// when that transfer still occupies the slot, no decision was made and
    /// the race was not cancelled; a late timer for a superseded transfer
    /// changes nothing.
    pub fn on_consent_timeout(&mut self, transfer_id: &String) -> (r: Option<ChannelMessage>)
        requires
            old(self).wf(),
        ensures
            final(self).wf(),
            final(self).service == old(self).service,
            final(self).recipients == old(self).recipients,
            final(self).supervisor == old(self).supervisor,
            final(self).discovery_on == old(self).discovery_on,
            final(self).next_notification_id == old(self).next_notification_id,
            (r is Some) == (match old(self).inbound {
                Option::Some(pre) => pre.transfer_id@ == transfer_id@ && timeout_fires(pre),
                Option::None => false,
            }),
            r is None ==> final(self).inbound == old(self).inbound,
            r is Some ==> (match (old(self).inbound, final(self).inbound, r) {
                (Option::Some(pre), Option::Some(post), Option::Some(m)) => {
                    &&& post.state.user_action == Option::Some(UserAction::ConsentDecline)
                    &&& post.auto_decline_cancelled
                    &&& !timeout_fires(post)
                    &&& post.state.event == pre.state.event
                    &&& post.state.eta == pre.state.eta
                    &&& post.state.user_cancelled == pre.state.user_cancelled
                    &&& post.transfer_id == pre.transfer_id
                    &&& post.notification_id == pre.notification_id
                    &&& m.id == pre.state.event.id
                    &&& m.msg == (Message::Lib { action: TransferAction::ConsentDecline })
                },
                _ => false,
            }),
    {
        let id_matches: bool = match &self.inbound {
            Option::Some(c) => c.transfer_id == *transfer_id,
            Option::None => false,
        };
        if !id_matches {
            return Option::None;
        }
        match &mut self.inbound {
            Option::Some(cache) => cache.on_timeout(),
            Option::None => unreached(),
        }
    }

    /// The notification to withdraw when the application closes: the
    /// inbound session's, but only while its last event is not terminal (a
    /// finished or cancelled transfer keeps its notification).
    pub fn shutdown_notification(&self) -> (r: Option<u64>)
        ensures
            r == (match self.inbound {
                Option::Some(c) => {
                    if c.state.event.is_client() && !is_terminal_state(
                        event_state(c.state.event),
                    ) {
                        Option::Some(c.notification_id)
                    } else {
                        Option::<u64>::None
                    }
                },
                Option::None => Option::<u64>::None,
            }),
    {
        match &self.inbound {
            Option::Some(c) => match &c.state.event.msg {
                Message::Client(client) => {
                    let st: ProtocolState = match client.state {
                        Option::Some(s) => s,
                        Option::None => ProtocolState::Initial,
                    };
                    match st {
                        ProtocolState::Disconnected
                        | ProtocolState::Rejected
                        | ProtocolState::Cancelled
                        | ProtocolState::Finished => Option::None,
                        _ => Option::Some(c.notification_id),
                    }
                },
                Message::Lib { .. } => Option::None,
            },
            Option::None => Option::None,
        }
    }

    /// Requests the device visibility `visible` from the engine: refused
    /// with `ServiceUnavailable` while the engine is not running (a change
    /// flipped mid-restart must not be lost silently), otherwise the caller
    /// forwards the returned flag to the engine.
    pub fn set_visibility(&self, visible: bool) -> (r: Result<bool, CoordinatorError>)
        ensures
            self.service != ServiceState::Running ==> r == Result::<bool, CoordinatorError>::Err(
                CoordinatorError::ServiceUnavailable,
            ),
            self.service == ServiceState::Running ==> r == Result::<bool, CoordinatorError>::Ok(
                visible,
            ),
    {
        if !matches!(self.service, ServiceState::Running) {
            return Result::Err(CoordinatorError::ServiceUnavailable);
        }
        Result::Ok(visible)
    }

    /// Begins stopping the engine: every supervised task is unregistered
    /// and returned for cancellation (newest first) and the service enters
    /// `Stopping`; the caller then instructs the engine to stop.
    pub fn begin_stop(&mut self) -> (cancelled: Vec<LoopingTaskHandle>)
        requires
            old(self).wf(),
        ensures
            final(self).wf(),
            final(self).service == ServiceState::Stopping,
            final(self).supervisor.handles@ == stop_all_remaining(old(self).supervisor.handles@),
            final(self).supervisor.handles@.len() == 0,
            cancelled@ == stop_all_cancelled(old(self).supervisor.handles@),
            final(self).recipients == old(self).recipients,
            final(self).inbound == old(self).inbound,
            final(self).discovery_on == old(self).discovery_on,
            final(self).next_notification_id == old(self).next_notification_id,
    {
        self.service = ServiceState::Stopping;
        self.supervisor.stop_all()
    }

    /// The engine finished stopping.
    pub fn finish_stop(&mut self)
        requires
            old(self).wf(),
        ensures
            final(self).wf(),
            final(self).service == ServiceState::Stopped,
            final(self).recipients == old(self).recipients,
            final(self).inbound == old(self).inbound,
            final(self).supervisor == old(self).supervisor,
            final(self).discovery_on == old(self).discovery_on,
            final(self).next_notification_id == old(self).next_notification_id,
    {
        self.service = ServiceState::Stopped;
    }

    /// Begins starting the engine.
    pub fn begin_start(&mut self)
        requires
            old(self).wf(),
        ensures
            final(self).wf(),
            final(self).service == ServiceState::Starting,
            final(self).recipients == old(self).recipients,
            final(self).inbound == old(self).inbound,
            final(self).supervisor == old(self).supervisor,
            final(self).discovery_on == old(self).discovery_on,
            final(self).next_notification_id == old(self).next_notification_id,
    {
        self.service = ServiceState::Starting;
    }

    /// The engine's initialization finished: the service is `Running` on
    /// success and `Failed` otherwise (the presentation layer then shows a
    /// single "service unavailable, retry" state).
    pub fn finish_start(&mut self, ok: bool)
        requires
            old(self).wf(),
        ensures
            final(self).wf(),
            final(self).service == (if ok {
                ServiceState::Running
            } else {
                ServiceState::Failed
            }),
            final(self).recipients == old(self).recipients,
            final(self).inbound == old(self).inbound,
            final(self).supervisor == old(self).supervisor,
            final(self).discovery_on == old(self).discovery_on,
            final(self).next_notification_id == old(self).next_notification_id,
    {
        self.service = if ok {
            ServiceState::Running
        } else {
            ServiceState::Failed
        };
    }

    /// Registers a freshly spawned relay or listener task for later
    /// cancellation.
    pub fn register_task(&mut self, handle: LoopingTaskHandle)
        requires
            old(self).wf(),
        ensures
            final(self).wf(),
            final(self).supervisor.handles@ == old(self).supervisor.handles@.push(handle),
            final(self).service == old(self).service,
            final(self).recipients == old(self).recipients,
            final(self).inbound == old(self).inbound,
            final(self).discovery_on == old(self).discovery_on,
            final(self).next_notification_id == old(self).next_notification_id,
    {
        self.supervisor.push(handle);
    }
}

/// Replacing one session with another for the same endpoint id keeps ids
/// unique and all sessions well-formed.
proof fn lemma_update_session(rs: Seq<SendRequestState>, i: int, s: SendRequestState)
    requires
        ids_unique(rs),
        forall|j: int| 0 <= j < rs.len() ==> (#[trigger] rs[j]).wf(),
        0 <= i < rs.len(),
        s.wf(),
        s.endpoint_info.id@ == rs[i].endpoint_info.id@,
    ensures
        ids_unique(rs.update(i, s)),
        forall|j: int| 0 <= j < rs.update(i, s).len() ==> (#[trigger] rs.update(i, s)[j]).wf(),
{
    let updated = rs.update(i, s);
    assert forall|a: int, b: int| 0 <= a < b < updated.len() implies #[trigger] updated[
        a
    ].endpoint_info.id@ != #[trigger] updated[b].endpoint_info.id@ by {
        assert(rs[a].endpoint_info.id@ != rs[b].endpoint_info.id@);
    }
}

/// Refresh preserves session well-formedness.
proof fn lemma_kept_sessions_wf(rs: Seq<SendRequestState>)
    requires
        forall|i: int| 0 <= i < rs.len() ==> (#[trigger] rs[i]).wf(),
        ids_unique(rs),
    ensures
        forall|i: int| 0 <= i < kept_sessions(rs).len() ==> (#[trigger] kept_sessions(rs)[i]).wf(),
        ids_unique(kept_sessions(rs)),
    decreases rs.len(),
{
    if rs.len() > 0 {
        assert(forall|i: int| 0 <= i < rs.len() - 1 ==> #[trigger] rs.drop_last()[i] == rs[i]);
        lemma_kept_sessions_wf(rs.drop_last());
        lemma_kept_sub(rs.drop_last());
        let kept = kept_sessions(rs);
        let rest = kept_sessions(rs.drop_last());
        if is_kept(rs.last()) {
            assert forall|i: int, j: int| 0 <= i < j < kept.len() implies #[trigger] kept[
                i
            ].endpoint_info.id@ != #[trigger] kept[j].endpoint_info.id@ by {
                if j < kept.len() - 1 {
                    assert(kept[i] == rest[i] && kept[j] == rest[j]);
                } else {
                    let wi = choose|w: int|
                        0 <= w < rs.drop_last().len() && #[trigger] rs.drop_last()[w] == rest[i];
                    assert(rs[wi] == rest[i]);
                    assert(rs[wi].endpoint_info.id@ != rs[rs.len() - 1].endpoint_info.id@);
                }
            }
        }
    }
}

/// Every session a refresh keeps appears in the original list.
proof fn lemma_kept_sub(rs: Seq<SendRequestState>)
    ensures
        forall|i: int|
            0 <= i < kept_sessions(rs).len() ==> (exists|w: int|
                0 <= w < rs.len() && #[trigger] rs[w] == #[trigger] kept_sessions(rs)[i]),
    decreases rs.len(),
{
    if rs.len() > 0 {
        lemma_kept_sub(rs.drop_last());
        assert(forall|i: int| 0 <= i < rs.len() - 1 ==> #[trigger] rs.drop_last()[i] == rs[i]);
        let kept = kept_sessions(rs);
        let rest = kept_sessions(rs.drop_last());
        assert forall|i: int| 0 <= i < kept.len() implies (exists|w: int|
            0 <= w < rs.len() && #[trigger] rs[w] == #[trigger] kept[i]) by {
            if is_kept(rs.last()) && i == kept.len() - 1 {
                assert(rs[rs.len() - 1] == kept[i]);
            } else {
                assert(kept[i] == rest[i]);
                let w = choose|w: int|
                    0 <= w < rs.drop_last().len() && #[trigger] rs.drop_last()[w] == rest[i];
                assert(rs[w] == kept[i]);
            }
        }
    }
}

} // verus!
