use packet::inbound::ReceiveTransferCache;
use packet::outbound::{SendRequestState, TransferState};
use packet::protocol::{
    display_text_type, ChannelMessage, Message, MessageClient, ProtocolState, TextPayloadType,
    TransferAction, TransferKind, TransferMetadata, TransferPayload, TransferPayloadKind,
    UserAction,
};
use packet::text::{clean_preview_text_payload, clean_text_payload};

fn metadata(
    source_name: Option<&str>,
    payload: Option<TransferPayload>,
    payload_kind: TransferPayloadKind,
    total_bytes: usize,
    ack_bytes: usize,
) -> TransferMetadata {
    TransferMetadata {
        source_name: source_name.map(|s| s.to_string()),
        pin_code: Some("1234".to_string()),
        payload,
        payload_preview: None,
        payload_kind,
        total_bytes,
        ack_bytes,
    }
}

fn client_msg(
    id: &str,
    state: ProtocolState,
    kind: TransferKind,
    meta: Option<TransferMetadata>,
) -> ChannelMessage {
    ChannelMessage {
        id: id.to_string(),
        msg: Message::Client(MessageClient { state: Some(state), kind, metadata: meta }),
    }
}

#[test]
fn device_name_comes_from_metadata() {
    let msg = client_msg(
        "t1",
        ProtocolState::WaitingForUserConsent,
        TransferKind::Inbound,
        Some(metadata(Some("Someone's Phone"), None, TransferPayloadKind::Files, 0, 0)),
    );
    assert_eq!(msg.device_name(), "Someone's Phone");
}

#[test]
fn device_name_falls_back_to_unknown_device() {
    let unnamed = client_msg(
        "t1",
        ProtocolState::WaitingForUserConsent,
        TransferKind::Inbound,
        Some(metadata(None, None, TransferPayloadKind::Files, 0, 0)),
    );
    assert_eq!(unnamed.device_name(), "Unknown device");
    let bare = client_msg(
        "t1",
        ProtocolState::WaitingForUserConsent,
        TransferKind::Inbound,
        None,
    );
    assert_eq!(bare.device_name(), "Unknown device");
}

#[test]
fn files_are_returned_only_for_file_payloads() {
    let with_files = client_msg(
        "t1",
        ProtocolState::Finished,
        TransferKind::Inbound,
        Some(metadata(
            None,
            Some(TransferPayload::Files(vec!["a.txt".to_string(), "b.png".to_string()])),
            TransferPayloadKind::Files,
            0,
            0,
        )),
    );
    assert_eq!(
        with_files.files(),
        Some(&vec!["a.txt".to_string(), "b.png".to_string()])
    );
    let with_text = client_msg(
        "t1",
        ProtocolState::Finished,
        TransferKind::Inbound,
        Some(metadata(
            None,
            Some(TransferPayload::Text("hi".to_string())),
            TransferPayloadKind::Text,
            0,
            0,
        )),
    );
    assert!(with_text.files().is_none());
}

#[test]
fn is_text_type_by_payload_kind() {
    for (kind, expected) in [
        (TransferPayloadKind::Files, false),
        (TransferPayloadKind::Text, true),
        (TransferPayloadKind::Url, true),
        (TransferPayloadKind::Wifi, true),
    ] {
        let msg = client_msg(
            "t1",
            ProtocolState::Finished,
            TransferKind::Inbound,
            Some(metadata(None, None, kind, 0, 0)),
        );
        assert_eq!(msg.is_text_type(), expected);
    }
}

#[test]
fn text_preview_is_passed_through() {
    let mut meta = metadata(None, None, TransferPayloadKind::Text, 0, 0);
    meta.payload_preview = Some("lorem ipsum".to_string());
    let msg = client_msg("t1", ProtocolState::WaitingForUserConsent, TransferKind::Inbound, Some(meta));
    assert_eq!(msg.text_preview(), Some("lorem ipsum".to_string()));
}

#[test]
fn transferred_text_data_formats_wifi_credentials() {
    let msg = client_msg(
        "t1",
        ProtocolState::Finished,
        TransferKind::Inbound,
        Some(metadata(
            None,
            Some(TransferPayload::Wifi {
                ssid: "HomeNet".to_string(),
                password: "hunter2".to_string(),
            }),
            TransferPayloadKind::Wifi,
            0,
            0,
        )),
    );
    let (text, kind) = msg.transferred_text_data().unwrap();
    assert_eq!(text, "HomeNet: hunter2");
    assert_eq!(kind, TextPayloadType::Wifi);
}

#[test]
fn transferred_text_data_for_text_and_url() {
    let text_msg = client_msg(
        "t1",
        ProtocolState::Finished,
        TransferKind::Inbound,
        Some(metadata(
            None,
            Some(TransferPayload::Text("note".to_string())),
            TransferPayloadKind::Text,
            0,
            0,
        )),
    );
    assert_eq!(
        text_msg.transferred_text_data(),
        Some(("note".to_string(), TextPayloadType::Text))
    );
    let url_msg = client_msg(
        "t1",
        ProtocolState::Finished,
        TransferKind::Inbound,
        Some(metadata(
            None,
            Some(TransferPayload::Url("https://example.org".to_string())),
            TransferPayloadKind::Url,
            0,
            0,
        )),
    );
    assert_eq!(
        url_msg.transferred_text_data(),
        Some(("https://example.org".to_string(), TextPayloadType::Url))
    );
}

#[test]
fn display_text_type_labels() {
    assert_eq!(display_text_type(&TextPayloadType::Url), "Link");
    assert_eq!(display_text_type(&TextPayloadType::Text), "Text");
    assert_eq!(display_text_type(&TextPayloadType::Wifi), "Wi-Fi");
}

#[test]
fn new_outbound_session_is_idle() {
    let session = SendRequestState::new();
    assert_eq!(session.transfer_state, TransferState::AwaitingConsentOrIdle);
    assert!(session.event.is_none());
    assert!(session.files.is_empty());
}

#[test]
fn sending_then_finished_reaches_done_in_order() {
    let mut session = SendRequestState::new();
    assert_eq!(session.transfer_state, TransferState::AwaitingConsentOrIdle);
    session.apply_event(
        client_msg(
            "t1",
            ProtocolState::SendingFiles,
            TransferKind::Outbound,
            Some(metadata(None, None, TransferPayloadKind::Files, 100, 10)),
        ),
        0,
    );
    assert_eq!(session.transfer_state, TransferState::OngoingTransfer);
    session.apply_event(
        client_msg("t1", ProtocolState::Finished, TransferKind::Outbound, None),
        1,
    );
    assert_eq!(session.transfer_state, TransferState::Done);
}

#[test]
fn consent_request_states_ask_for_consent() {
    for state in [
        ProtocolState::SentUkeyClientInit,
        ProtocolState::SentUkeyClientFinish,
        ProtocolState::SentIntroduction,
    ] {
        let mut session = SendRequestState::new();
        session.apply_event(client_msg("t1", state, TransferKind::Outbound, None), 0);
        assert_eq!(session.transfer_state, TransferState::RequestedForConsent);
        assert!(session.event.is_some());
    }
}

#[test]
fn disconnect_and_reject_fail_the_session() {
    for state in [ProtocolState::Disconnected, ProtocolState::Rejected] {
        let mut session = SendRequestState::new();
        session.apply_event(client_msg("t1", state, TransferKind::Outbound, None), 0);
        assert_eq!(session.transfer_state, TransferState::Failed);
    }
}

#[test]
fn cancel_clears_the_event_for_retry() {
    let mut session = SendRequestState::new();
    session.apply_event(
        client_msg("t1", ProtocolState::SendingFiles, TransferKind::Outbound, None),
        0,
    );
    session.apply_event(
        client_msg("t1", ProtocolState::Cancelled, TransferKind::Outbound, None),
        1,
    );
    assert_eq!(session.transfer_state, TransferState::AwaitingConsentOrIdle);
    assert!(session.event.is_none());
}

#[test]
fn handshake_noise_keeps_the_session_state() {
    let mut session = SendRequestState::new();
    for state in [
        ProtocolState::Initial,
        ProtocolState::ReceivedConnectionRequest,
        ProtocolState::SentPairedKeyResult,
        ProtocolState::ReceivingFiles,
    ] {
        session.apply_event(client_msg("t1", state, TransferKind::Outbound, None), 0);
        assert_eq!(session.transfer_state, TransferState::AwaitingConsentOrIdle);
    }
}

#[test]
fn copied_session_starts_over_as_idle() {
    let mut session = SendRequestState::new();
    session.device_name = "Laptop".to_string();
    session.files = vec!["a".to_string()];
    session.apply_event(
        client_msg("t1", ProtocolState::SendingFiles, TransferKind::Outbound, None),
        0,
    );
    let copy = session.copy();
    assert_eq!(copy.device_name, "Laptop");
    assert_eq!(copy.files, vec!["a".to_string()]);
    assert!(copy.event.is_some());
    assert_eq!(copy.transfer_state, TransferState::AwaitingConsentOrIdle);
    assert_eq!(session.transfer_state, TransferState::OngoingTransfer);
}

fn consent_event(id: &str, total_bytes: usize) -> ChannelMessage {
    client_msg(
        id,
        ProtocolState::WaitingForUserConsent,
        TransferKind::Inbound,
        Some(metadata(
            Some("Someone's Phone"),
            None,
            TransferPayloadKind::Files,
            total_bytes,
            0,
        )),
    )
}

#[test]
fn fresh_inbound_session_awaits_a_decision() {
    let cache = ReceiveTransferCache::new(consent_event("r1", 1000), 7);
    assert_eq!(cache.transfer_id, "r1");
    assert_eq!(cache.notification_id, 7);
    assert!(cache.state.user_action.is_none());
    assert!(!cache.state.user_cancelled);
    assert!(!cache.auto_decline_cancelled);
}

#[test]
fn accepting_forwards_the_accept_action() {
    let mut cache = ReceiveTransferCache::new(consent_event("r1", 1000), 0);
    let action = cache
        .set_user_action(UserAction::ConsentAccept)
        .expect("the first decision must be recorded");
    assert_eq!(action.id, "r1");
    assert!(matches!(
        action.msg,
        Message::Lib { action: TransferAction::ConsentAccept }
    ));
    assert_eq!(cache.state.user_action, Some(UserAction::ConsentAccept));
    assert!(cache.auto_decline_cancelled);
    assert!(!cache.state.user_cancelled);
}

#[test]
fn cancelling_an_accepted_transfer_marks_it_user_cancelled() {
    let mut cache = ReceiveTransferCache::new(consent_event("r1", 1000), 0);
    cache
        .set_user_action(UserAction::ConsentAccept)
        .expect("the first decision must be recorded");
    let action = cache
        .set_user_action(UserAction::TransferCancel)
        .expect("a cancel after an accept must be recorded");
    assert!(matches!(
        action.msg,
        Message::Lib { action: TransferAction::TransferCancel }
    ));
    assert!(cache.state.user_cancelled);
}

#[test]
fn the_first_consent_decision_stands() {
    let mut cache = ReceiveTransferCache::new(consent_event("r1", 1000), 0);
    cache
        .set_user_action(UserAction::ConsentAccept)
        .expect("the first decision must be recorded");
    assert!(cache.set_user_action(UserAction::ConsentDecline).is_none());
    assert_eq!(cache.state.user_action, Some(UserAction::ConsentAccept));
}

#[test]
fn a_cancel_is_only_valid_after_an_accept() {
    let mut cache = ReceiveTransferCache::new(consent_event("r1", 1000), 0);
    assert!(cache.set_user_action(UserAction::TransferCancel).is_none());
    assert!(cache.state.user_action.is_none());
    assert!(!cache.state.user_cancelled);
    cache
        .set_user_action(UserAction::ConsentDecline)
        .expect("the first decision must be recorded");
    assert!(cache.set_user_action(UserAction::TransferCancel).is_none());
    assert!(!cache.state.user_cancelled);
}

#[test]
fn timeout_declines_exactly_once() {
    let mut cache = ReceiveTransferCache::new(consent_event("r1", 1000), 0);
    let first = cache.on_timeout();
    let decline = first.expect("first timeout must decline");
    assert_eq!(decline.id, "r1");
    assert!(matches!(
        decline.msg,
        Message::Lib { action: TransferAction::ConsentDecline }
    ));
    assert_eq!(cache.state.user_action, Some(UserAction::ConsentDecline));
    assert!(cache.on_timeout().is_none());
}

#[test]
fn timeout_never_fires_after_a_decision() {
    let mut cache = ReceiveTransferCache::new(consent_event("r1", 1000), 0);
    cache
        .set_user_action(UserAction::ConsentAccept)
        .expect("the first decision must be recorded");
    assert!(cache.on_timeout().is_none());
    assert_eq!(cache.state.user_action, Some(UserAction::ConsentAccept));
}

#[test]
fn inbound_progress_steps_the_estimator() {
    let mut cache = ReceiveTransferCache::new(consent_event("r1", 1000), 0);
    cache.apply_event(
        client_msg(
            "r1",
            ProtocolState::ReceivingFiles,
            TransferKind::Inbound,
            Some(metadata(None, None, TransferPayloadKind::Files, 1000, 0)),
        ),
        0,
    );
    cache.apply_event(
        client_msg(
            "r1",
            ProtocolState::ReceivingFiles,
            TransferKind::Inbound,
            Some(metadata(None, None, TransferPayloadKind::Files, 1000, 100)),
        ),
        1000,
    );
    assert_eq!(cache.state.eta.get_estimate_string(), "  9 seconds");
    assert!(cache.auto_decline_cancelled);
}

#[test]
fn clean_text_payload_strips_one_wrapping() {
    assert_eq!(clean_text_payload("\"hello\"\n"), "hello");
    assert_eq!(clean_text_payload("hello"), "hello");
    assert_eq!(clean_text_payload("\"hello\""), "\"hello\"");
    assert_eq!(clean_text_payload(""), "");
}

#[test]
fn clean_preview_keeps_only_the_first_line() {
    assert_eq!(clean_preview_text_payload("\"hello\nworld\"\n"), "hello");
    assert_eq!(clean_preview_text_payload("line1\r\nline2"), "line1");
    assert_eq!(clean_preview_text_payload("\"\"\n"), "");
    assert_eq!(clean_preview_text_payload("plain"), "plain");
}
