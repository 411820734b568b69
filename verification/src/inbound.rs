//! The inbound (receive) session: consent mediation with auto-decline.
//!
//! At most one inbound transfer exists at a time.  A session is created
//! when the engine reports `WaitingForUserConsent`; a sixty-second
//! auto-decline race starts alongside.  The user's decision (or the
//! timeout) is forwarded to the engine, and later events for the same
//! transfer id drive the progress estimator until a terminal state
//! releases the slot.

use vstd::prelude::*;
use crate::eta::DataTransferEta;
use crate::eta::eta_initial;
use crate::eta::eta_step;
use crate::protocol::ChannelMessage;
use crate::protocol::Message;
use crate::protocol::ProtocolState;
use crate::protocol::TransferAction;
use crate::protocol::UserAction;
use crate::protocol::effective_state;
use crate::protocol::msg_is_text_type;

verus! {

/// The engine action forwarded for a user's decision.
pub open spec fn user_to_transfer_action(a: UserAction) -> TransferAction {
    match a {
        UserAction::ConsentAccept => TransferAction::ConsentAccept,
        UserAction::ConsentDecline => TransferAction::ConsentDecline,
        UserAction::TransferCancel => TransferAction::TransferCancel,
    }
}

/// The protocol state an event reports, `Initial` when it reports none.
pub open spec fn inbound_event_state(m: ChannelMessage) -> ProtocolState {
    effective_state(m.msg.client())
}

/// The total byte count an event carries, if it has metadata.
pub open spec fn event_total(m: ChannelMessage) -> Option<nat> {
    match m.msg.client().metadata {
        Option::Some(meta) => Option::Some(meta.total_bytes as nat),
        Option::None => Option::None,
    }
}

/// The acknowledged byte count an event carries, if it has metadata.
pub open spec fn inbound_event_ack(m: ChannelMessage) -> Option<nat> {
    match m.msg.client().metadata {
        Option::Some(meta) => Option::Some(meta.ack_bytes as nat),
        Option::None => Option::None,
    }
}

/// Whether `s` ends an inbound session: the remote side disconnected,
/// rejected, cancelled, or the transfer finished.
pub open spec fn is_terminal_state(s: ProtocolState) -> bool {
    s == ProtocolState::Disconnected || s == ProtocolState::Rejected || s
        == ProtocolState::Cancelled || s == ProtocolState::Finished
}

/// How applying the later client event `msg` at clock reading `now`
/// relates an inbound slot entry `post` to its predecessor `pre`: the
/// auto-decline race is cancelled, the event is stored, the decision and
/// identifiers stay untouched, and a `ReceivingFiles` event for a non-text
/// payload steps the estimator with the acknowledged byte count.
pub open spec fn inbound_applied(
    pre: ReceiveTransferCache,
    post: ReceiveTransferCache,
    msg: ChannelMessage,
    now: u64,
) -> bool {
    &&& post.auto_decline_cancelled
    &&& post.state.event == msg
    &&& post.state.user_action == pre.state.user_action
    &&& post.state.user_cancelled == pre.state.user_cancelled
    &&& post.transfer_id == pre.transfer_id
    &&& post.notification_id == pre.notification_id
    &&& ((inbound_event_state(msg) == ProtocolState::ReceivingFiles && !msg_is_text_type(msg))
        ==> (match inbound_event_ack(msg) {
        Option::Some(ack) => {
            if pre.state.eta@.total_transferred <= ack && pre.state.eta@.seconds_elapsed
                < usize::MAX {
                post.state.eta@ == eta_step(pre.state.eta@, ack, now as nat)
            } else {
                post.state.eta@ == pre.state.eta@
            }
        },
        Option::None => post.state.eta@ == pre.state.eta@,
    }))
    &&& (!(inbound_event_state(msg) == ProtocolState::ReceivingFiles && !msg_is_text_type(msg))
        ==> post.state.eta@ == pre.state.eta@)
}

/// State of the one inbound transfer: its last event, the user's decision,
/// a progress estimator, and whether this user cancelled the transfer.
#[derive(Debug)]
pub struct ReceiveTransferState {
    /// The last event applied to this session.
    pub event: ChannelMessage,
    /// The user's decision, absent until made.
    pub user_action: Option<UserAction>,
    /// Remaining-time estimator for the transfer.
    pub eta: DataTransferEta,
    /// Whether this user cancelled the transfer (so the resulting
    /// `Cancelled` event is not surfaced as a sender-initiated failure).
    pub user_cancelled: bool,
}

/// The single inbound-session slot entry: the transfer id it was created
/// for, the notification that accompanies it, the session state, and the
/// auto-decline race's cancellation flag.
#[derive(Debug)]
pub struct ReceiveTransferCache {
    /// Id of the transfer the slot was created for.
    pub transfer_id: String,
    /// Identifier of the desktop notification raised for this transfer.
    pub notification_id: u64,
    /// The session state.
    pub state: ReceiveTransferState,
    /// Whether the sixty-second auto-decline race has been cancelled.
    pub auto_decline_cancelled: bool,
}

/// Whether the auto-decline timeout would still decline the transfer.
pub open spec fn timeout_fires(c: ReceiveTransferCache) -> bool {
    c.state.user_action is None && !c.auto_decline_cancelled
}

/// Whether recording `action` is allowed in the session's current phase:
/// the user's decision is write-once, so a consent decision lands only
/// while none was made, and a transfer cancel only on an accepted
/// transfer.
pub open spec fn action_allowed(c: ReceiveTransferCache, action: UserAction) -> bool {
    match action {
        UserAction::ConsentAccept | UserAction::ConsentDecline => c.state.user_action is None,
        UserAction::TransferCancel => c.state.user_action == Option::Some(
            UserAction::ConsentAccept,
        ),
    }
}

impl ReceiveTransferCache {
    /// Validity: the estimator is well-formed.
    pub open spec fn wf(self) -> bool {
        self.state.eta@.wf()
    }

    /// A fresh inbound session for consent event `event`, under
    /// notification `notification_id`.  The user's decision starts unset,
    /// the auto-decline race starts uncancelled, and the estimator is
    /// prepared for the announced total byte count (zero when the event
    /// carries none).
    pub fn new(event: ChannelMessage, notification_id: u64) -> (r: Self)
        requires
            event.is_client(),
        ensures
            r.wf(),
            r.transfer_id == event.id,
            r.notification_id == notification_id,
            r.state.event == event,
            r.state.user_action is None,
            r.state.user_cancelled == false,
            r.auto_decline_cancelled == false,
            r.state.eta@ == eta_initial(
                match event_total(event) {
                    Option::Some(t) => t,
                    Option::None => 0,
                },
            ),
    {
        let total: usize = {
            let client = event.msg.as_client_unchecked();
            match &client.metadata {
                Option::Some(meta) => meta.total_bytes,
                Option::None => 0,
            }
        };
        let transfer_id = event.id.clone();
        ReceiveTransferCache {
            transfer_id,
            notification_id,
            state: ReceiveTransferState {
                event,
                user_action: Option::None,
                eta: DataTransferEta::new(total),
                user_cancelled: false,
            },
            auto_decline_cancelled: false,
        }
    }

    /// Records the user's decision where the session's phase allows it (the
    /// decision is write-once: the first consent decision stands, and a
    /// cancel lands only on an accepted transfer).  On a recorded decision
    /// the auto-decline race is cancelled, a cancel also marks the session
    /// user-cancelled, and the matching engine action for this transfer is
    /// returned, to be handed to the engine's action sink; a refused
    /// decision changes nothing.
    pub fn set_user_action(&mut self, action: UserAction) -> (r: Option<ChannelMessage>)
        ensures
            (r is Some) == action_allowed(*old(self), action),
            action_allowed(*old(self), action) ==> {
                &&& final(self).auto_decline_cancelled
                &&& final(self).state.user_action == Option::Some(action)
                &&& final(self).state.user_cancelled == (old(self).state.user_cancelled || action
                    == UserAction::TransferCancel)
                &&& final(self).state.event == old(self).state.event
                &&& final(self).state.eta == old(self).state.eta
                &&& final(self).transfer_id == old(self).transfer_id
                &&& final(self).notification_id == old(self).notification_id
                &&& !timeout_fires(*final(self))
                &&& (match r {
                    Option::Some(m) => m.id == old(self).state.event.id && m.msg == (Message::Lib {
                        action: user_to_transfer_action(action),
                    }),
                    Option::None => false,
                })
            },
            !action_allowed(*old(self), action) ==> *final(self) == *old(self),
    {
        let allowed: bool = match action {
            UserAction::ConsentAccept | UserAction::ConsentDecline => self
                .state
                .user_action
                .is_none(),
            UserAction::TransferCancel => matches!(
                self.state.user_action,
                Option::Some(UserAction::ConsentAccept),
            ),
        };
        if allowed {
            self.auto_decline_cancelled = true;
            Option::Some(self.user_action_set(action))
        } else {
            Option::None
        }
    }

    /// Stores the decision and builds the engine action (shared by
    /// [`Self::set_user_action`] and the timeout path).
    fn user_action_set(&mut self, action: UserAction) -> (r: ChannelMessage)
        ensures
            final(self).state.user_action == Option::Some(action),
            final(self).state.user_cancelled == (old(self).state.user_cancelled || action
                == UserAction::TransferCancel),
            final(self).state.event == old(self).state.event,
            final(self).state.eta == old(self).state.eta,
            final(self).transfer_id == old(self).transfer_id,
            final(self).notification_id == old(self).notification_id,
            final(self).auto_decline_cancelled == old(self).auto_decline_cancelled,
            r.id == old(self).state.event.id,
            r.msg == (Message::Lib { action: user_to_transfer_action(action) }),
    {
        self.state.user_action = Option::Some(action);
        if matches!(action, UserAction::TransferCancel) {
            self.state.user_cancelled = true;
        }
        let engine_action: TransferAction = match action {
            UserAction::ConsentAccept => TransferAction::ConsentAccept,
            UserAction::ConsentDecline => TransferAction::ConsentDecline,
            UserAction::TransferCancel => TransferAction::TransferCancel,
        };
        ChannelMessage {
            id: self.state.event.id.clone(),
            msg: Message::Lib { action: engine_action },
        }
    }

    /// The sixty-second timer fired.  If the user has not decided and the
    /// race was not cancelled, a decline is synthesized exactly once and
    /// the engine action to forward is returned; otherwise nothing
    /// changes.
    pub fn on_timeout(&mut self) -> (r: Option<ChannelMessage>)
        ensures
            (r is Some) == timeout_fires(*old(self)),
            timeout_fires(*old(self)) ==> {
                &&& final(self).state.user_action == Option::Some(UserAction::ConsentDecline)
                &&& final(self).auto_decline_cancelled
                &&& !timeout_fires(*final(self))
                &&& final(self).state.event == old(self).state.event
                &&& final(self).state.eta == old(self).state.eta
                &&& final(self).state.user_cancelled == old(self).state.user_cancelled
                &&& final(self).transfer_id == old(self).transfer_id
                &&& final(self).notification_id == old(self).notification_id
                &&& (match r {
                    Option::Some(m) => m.id == old(self).state.event.id && m.msg == (Message::Lib {
                        action: TransferAction::ConsentDecline,
                    }),
                    Option::None => false,
                })
            },
            !timeout_fires(*old(self)) ==> *final(self) == *old(self),
    {
        if self.state.user_action.is_none() && !self.auto_decline_cancelled {
            self.auto_decline_cancelled = true;
            Option::Some(self.user_action_set(UserAction::ConsentDecline))
        } else {
            Option::None
        }
    }

    /// Applies a later engine event for this transfer: any event cancels
    /// the auto-decline race and replaces the stored event, and a
    /// `ReceivingFiles` event for a non-text payload steps the progress
    /// estimator with the acknowledged byte count.
    pub fn apply_event(&mut self, msg: ChannelMessage, now: u64)
        requires
            old(self).wf(),
            msg.is_client(),
        ensures
            final(self).wf(),
            inbound_applied(*old(self), *final(self), msg, now),
    {
        self.auto_decline_cancelled = true;
        let state: ProtocolState = {
            let client = msg.msg.as_client_unchecked();
            match client.state {
                Option::Some(st) => st,
                Option::None => ProtocolState::Initial,
            }
        };
        if matches!(state, ProtocolState::ReceivingFiles) && !msg.is_text_type() {
            let ack_opt: Option<usize> = {
                let client = msg.msg.as_client_unchecked();
                match &client.metadata {
                    Option::Some(meta) => Option::Some(meta.ack_bytes),
                    Option::None => Option::None,
                }
            };
            if let Option::Some(ack) = ack_opt {
                self.state.eta.observe_at(ack, now);
            }
        }
        self.state.event = msg;
    }
}

/// Once the user has decided, or the race has been cancelled for any other
/// reason, the auto-decline timeout can never fire again — in particular,
/// an accept that lands just before the deadline wins the race.
pub proof fn lemma_timeout_never_fires_after_action(c: ReceiveTransferCache)
    requires
        c.auto_decline_cancelled || c.state.user_action is Some,
    ensures
        !timeout_fires(c),
{
}

} // verus!
