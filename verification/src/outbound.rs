//! The outbound (send) session state machine.
//!
//! One [`SendRequestState`] exists per discovered endpoint.  Engine events
//! for the session's transfer id drive the [`TransferState`] through the
//! transition table in [`next_transfer_state`]; the session also keeps the
//! last event, the selected files and a remaining-time estimator.

use vstd::prelude::*;
use crate::eta::DataTransferEta;
use crate::eta::EtaView;
use crate::eta::eta_initial;
use crate::eta::eta_step;
use crate::protocol::ChannelMessage;
use crate::protocol::EndpointInfo;
use crate::protocol::ProtocolState;
use crate::protocol::channel_message_eq;
use crate::protocol::clone_strings;
use crate::protocol::effective_state;

verus! {

/// The client-visible state of an outbound session.
#[derive(Debug, Clone, Copy, PartialEq, Eq, Structural)]
pub enum TransferState {
    /// A send was requested while another transfer was active.
    Queued,
    /// Nothing in flight; the initial and post-cancel state.
    AwaitingConsentOrIdle,
    /// The remote device was asked for consent.
    RequestedForConsent,
    /// Files are being transferred.
    OngoingTransfer,
    /// The transfer failed or was rejected.
    Failed,
    /// The transfer completed.
    Done,
}

/// The protocol state an event reports, `Initial` when it reports none.
pub open spec fn event_state(m: ChannelMessage) -> ProtocolState {
    effective_state(m.msg.client())
}

/// The acknowledged byte count an event carries, if it has metadata.
pub open spec fn event_ack(m: ChannelMessage) -> Option<nat> {
    match m.msg.client().metadata {
        Option::Some(meta) => Option::Some(meta.ack_bytes as nat),
        Option::None => Option::None,
    }
}

/// The session state an engine-reported protocol state drives a session
/// into; states outside the table leave the session state unchanged.
pub open spec fn next_transfer_state(cur: TransferState, s: ProtocolState) -> TransferState {
    match s {
        ProtocolState::SentUkeyClientInit
        | ProtocolState::SentUkeyClientFinish
        | ProtocolState::SentIntroduction => TransferState::RequestedForConsent,
        ProtocolState::SendingFiles => TransferState::OngoingTransfer,
        ProtocolState::Disconnected => TransferState::Failed,
        ProtocolState::Rejected => TransferState::Failed,
        ProtocolState::Cancelled => TransferState::AwaitingConsentOrIdle,
        ProtocolState::Finished => TransferState::Done,
        _ => cur,
    }
}

/// Whether `s` asks the remote device for consent (the estimator is reset
/// on these, since the transfer length is not known yet).
pub open spec fn is_consent_request(s: ProtocolState) -> bool {
    s == ProtocolState::SentUkeyClientInit || s == ProtocolState::SentUkeyClientFinish || s
        == ProtocolState::SentIntroduction
}

/// How applying the client event `msg` at clock reading `now` relates a
/// session state `post` to its predecessor `pre`: the session state
/// follows [`next_transfer_state`], a `Cancelled` event clears the stored
/// event while every other event is stored, the endpoint snapshot, name
/// and file set stay untouched, a consent request resets the estimator,
/// and a `SendingFiles` event steps it with the acknowledged byte count.
pub open spec fn applied_event(
    pre: SendRequestState,
    post: SendRequestState,
    msg: ChannelMessage,
    now: u64,
) -> bool {
    &&& post.transfer_state == next_transfer_state(pre.transfer_state, event_state(msg))
    &&& (event_state(msg) == ProtocolState::Cancelled ==> post.event is None)
    &&& (event_state(msg) != ProtocolState::Cancelled ==> post.event == Option::Some(msg))
    &&& post.endpoint_info == pre.endpoint_info
    &&& post.device_name == pre.device_name
    &&& post.files == pre.files
    &&& (is_consent_request(event_state(msg)) ==> post.eta@ == eta_initial(pre.eta@.total_len))
    &&& (event_state(msg) == ProtocolState::SendingFiles ==> (match event_ack(msg) {
        Option::Some(ack) => {
            if pre.eta@.total_transferred <= ack && pre.eta@.seconds_elapsed < usize::MAX {
                post.eta@ == eta_step(pre.eta@, ack, now as nat)
            } else {
                post.eta@ == pre.eta@
            }
        },
        Option::None => post.eta@ == pre.eta@,
    }))
    &&& ((!is_consent_request(event_state(msg)) && event_state(msg)
        != ProtocolState::SendingFiles) ==> post.eta@ == pre.eta@)
}

/// One outbound session: an endpoint snapshot, the files to send, the
/// client-visible state, the last event seen and a time estimator.
#[derive(Debug)]
pub struct SendRequestState {
    /// Snapshot of the endpoint this session sends to.
    pub endpoint_info: EndpointInfo,
    /// Display name shown for the endpoint.
    pub device_name: String,
    /// Client-visible session state.
    pub transfer_state: TransferState,
    /// The last protocol event applied to this session.
    pub event: Option<ChannelMessage>,
    /// Remaining-time estimator for the session's transfer.
    pub eta: DataTransferEta,
    /// Paths of the files to send.
    pub files: Vec<String>,
}

impl SendRequestState {
    /// Validity: the estimator is well-formed.
    pub open spec fn wf(self) -> bool {
        self.eta@.wf()
    }

    /// A fresh idle session with no endpoint, files or history.
    pub fn new() -> (r: Self)
        ensures
            r.wf(),
            r.transfer_state == TransferState::AwaitingConsentOrIdle,
            r.event is None,
            r.device_name@ == Seq::<char>::empty(),
            r.files@ == Seq::<String>::empty(),
            r.eta@ == eta_initial(0),
            r.endpoint_info.id@ == Seq::<char>::empty(),
            r.endpoint_info.name is None,
            r.endpoint_info.ip is None,
            r.endpoint_info.port is None,
            r.endpoint_info.present is None,
    {
        SendRequestState {
            endpoint_info: EndpointInfo {
                id: String::new(),
                name: Option::None,
                ip: Option::None,
                port: Option::None,
                present: Option::None,
            },
            device_name: String::new(),
            transfer_state: TransferState::AwaitingConsentOrIdle,
            event: Option::None,
            eta: DataTransferEta::new(0),
            files: Vec::new(),
        }
    }

    /// A copy of the session's endpoint, name, event, estimator and files;
    /// the client-visible state starts over as `AwaitingConsentOrIdle`.
    pub fn copy(&self) -> (r: Self)
        requires
            self.wf(),
        ensures
            r.wf(),
            r.endpoint_info == self.endpoint_info,
            r.device_name == self.device_name,
            r.transfer_state == TransferState::AwaitingConsentOrIdle,
            (match (r.event, self.event) {
                (Option::Some(a), Option::Some(b)) => channel_message_eq(a, b),
                (Option::None, Option::None) => true,
                _ => false,
            }),
            r.eta@ == self.eta@,
            r.files@ == self.files@,
    {
        SendRequestState {
            endpoint_info: self.endpoint_info.duplicate(),
            device_name: self.device_name.clone(),
            transfer_state: TransferState::AwaitingConsentOrIdle,
            event: match &self.event {
                Option::Some(e) => Option::Some(e.duplicate()),
                Option::None => Option::None,
            },
            eta: self.eta.duplicate(),
            files: clone_strings(&self.files),
        }
    }

    /// Applies one engine event to this session at clock reading `now`.
    ///
    /// The session state follows [`next_transfer_state`]; a consent request
    /// resets the estimator (length still unknown), a `SendingFiles` event
    /// steps it with the acknowledged byte count, a `Cancelled` event clears
    /// the stored event so the endpoint can be retried, and every other
    /// event is stored as the session's last event.
    pub fn apply_event(&mut self, msg: ChannelMessage, now: u64)
        requires
            old(self).wf(),
            msg.is_client(),
        ensures
            final(self).wf(),
            applied_event(*old(self), *final(self), msg, now),
    {
        let state: ProtocolState = {
            let client = msg.msg.as_client_unchecked();
            match client.state {
                Option::Some(st) => st,
                Option::None => ProtocolState::Initial,
            }
        };
        let ack_opt: Option<usize> = {
            let client = msg.msg.as_client_unchecked();
            match &client.metadata {
                Option::Some(meta) => Option::Some(meta.ack_bytes),
                Option::None => Option::None,
            }
        };

        match state {
            ProtocolState::SentUkeyClientInit
            | ProtocolState::SentUkeyClientFinish
            | ProtocolState::SentIntroduction => {
                self.transfer_state = TransferState::RequestedForConsent;
                self.eta.prepare_for_new_transfer(Option::None);
                self.event = Option::Some(msg);
            },
            ProtocolState::SendingFiles => {
                self.transfer_state = TransferState::OngoingTransfer;
                if let Option::Some(ack) = ack_opt {
                    self.eta.observe_at(ack, now);
                }
                self.event = Option::Some(msg);
            },
            ProtocolState::Disconnected => {
                self.transfer_state = TransferState::Failed;
                self.event = Option::Some(msg);
            },
            ProtocolState::Rejected => {
                self.transfer_state = TransferState::Failed;
                self.event = Option::Some(msg);
            },
            ProtocolState::Cancelled => {
                self.transfer_state = TransferState::AwaitingConsentOrIdle;
                self.event = Option::None;
            },
            ProtocolState::Finished => {
                self.transfer_state = TransferState::Done;
                self.event = Option::Some(msg);
            },
            _ => {
                self.event = Option::Some(msg);
            },
        }
    }
}

/// From any session state, a `SendingFiles` event moves the session to
/// `OngoingTransfer`, and a `Finished` event right after moves it to
/// `Done` — in that order, with no other state in between.
pub proof fn lemma_sending_then_finished(s0: TransferState)
    ensures
        next_transfer_state(s0, ProtocolState::SendingFiles) == TransferState::OngoingTransfer,
        next_transfer_state(
            next_transfer_state(s0, ProtocolState::SendingFiles),
            ProtocolState::Finished,
        ) == TransferState::Done,
{
}

} // verus!
