use packet::coordinator::{Coordinator, CoordinatorError, RouterEffect, ServiceState};
use packet::files::{filter_added_files, CandidateFile};
use packet::outbound::TransferState;
use packet::protocol::{
    ChannelMessage, EndpointInfo, Message, MessageClient, ProtocolState, TransferAction,
    TransferKind, TransferMetadata, TransferPayloadKind,
};
use packet::supervisor::{LoopingTaskHandle, TaskSupervisor};
use packet::tray::TrayMessage;

fn endpoint(id: &str, name: Option<&str>, present: Option<bool>) -> EndpointInfo {
    EndpointInfo {
        id: id.to_string(),
        name: name.map(|s| s.to_string()),
        ip: Some("192.168.0.9".to_string()),
        port: Some("5200".to_string()),
        present,
    }
}

fn outbound_event(id: &str, state: ProtocolState) -> ChannelMessage {
    ChannelMessage {
        id: id.to_string(),
        msg: Message::Client(MessageClient {
            state: Some(state),
            kind: TransferKind::Outbound,
            metadata: None,
        }),
    }
}

fn inbound_event(id: &str, state: ProtocolState, total: usize, ack: usize) -> ChannelMessage {
    ChannelMessage {
        id: id.to_string(),
        msg: Message::Client(MessageClient {
            state: Some(state),
            kind: TransferKind::Inbound,
            metadata: Some(TransferMetadata {
                source_name: Some("Someone's Phone".to_string()),
                pin_code: Some("4321".to_string()),
                payload: None,
                payload_preview: None,
                payload_kind: TransferPayloadKind::Files,
                total_bytes: total,
                ack_bytes: ack,
            }),
        }),
    }
}

fn internal_event(id: &str) -> ChannelMessage {
    ChannelMessage {
        id: id.to_string(),
        msg: Message::Lib { action: TransferAction::ConsentAccept },
    }
}

fn running_coordinator() -> Coordinator {
    let mut coordinator = Coordinator::new();
    coordinator.begin_start();
    coordinator.finish_start(true);
    coordinator
}

#[test]
fn discovering_an_endpoint_twice_keeps_one_session_with_latest_presence() {
    let mut coordinator = running_coordinator();
    coordinator.handle_discovery(endpoint("dev1", Some("Phone"), Some(true)));
    coordinator.handle_discovery(endpoint("dev1", Some("Phone"), Some(false)));
    assert_eq!(coordinator.recipients.len(), 1);
    assert_eq!(coordinator.recipients[0].endpoint_info.id, "dev1");
    assert_eq!(coordinator.recipients[0].endpoint_info.present, Some(false));
}

#[test]
fn discovery_inserts_new_endpoints_at_the_front() {
    let mut coordinator = running_coordinator();
    coordinator.handle_discovery(endpoint("a", None, Some(true)));
    coordinator.handle_discovery(endpoint("b", None, Some(true)));
    assert_eq!(coordinator.recipients.len(), 2);
    assert_eq!(coordinator.recipients[0].endpoint_info.id, "b");
    assert_eq!(coordinator.recipients[1].endpoint_info.id, "a");
}

#[test]
fn send_while_another_session_awaits_consent_queues() {
    let mut coordinator = running_coordinator();
    coordinator.handle_discovery(endpoint("a", Some("A"), Some(true)));
    coordinator.handle_discovery(endpoint("b", Some("B"), Some(true)));
    coordinator.handle_discovery(endpoint("c", Some("C"), Some(true)));
    let effect = coordinator.route_message(
        outbound_event("a", ProtocolState::SentIntroduction),
        0,
    );
    assert!(matches!(effect, RouterEffect::OutboundUpdated { .. }));
    let info = coordinator
        .send_to(&"c".to_string(), vec!["/tmp/x".to_string()])
        .expect("send must be accepted");
    assert_eq!(info.id, "c");
    assert_eq!(info.name, "C");
    assert_eq!(info.addr, "192.168.0.9:5200");
    assert_eq!(info.files, vec!["/tmp/x".to_string()]);
    let c_session = coordinator
        .recipients
        .iter()
        .find(|s| s.endpoint_info.id == "c")
        .unwrap();
    assert_eq!(c_session.transfer_state, TransferState::Queued);
    assert_ne!(c_session.transfer_state, TransferState::RequestedForConsent);
}

#[test]
fn send_with_no_active_session_stays_idle_until_the_engine_reports() {
    let mut coordinator = running_coordinator();
    coordinator.handle_discovery(endpoint("a", Some("A"), Some(true)));
    coordinator
        .send_to(&"a".to_string(), vec!["/tmp/x".to_string()])
        .expect("send must be accepted");
    assert_eq!(
        coordinator.recipients[0].transfer_state,
        TransferState::AwaitingConsentOrIdle
    );
}

#[test]
fn send_requires_a_running_engine() {
    let mut coordinator = Coordinator::new();
    coordinator.handle_discovery(endpoint("a", None, Some(true)));
    assert!(matches!(
        coordinator.send_to(&"a".to_string(), vec![]),
        Err(CoordinatorError::ServiceUnavailable)
    ));
    coordinator.begin_start();
    assert!(matches!(
        coordinator.send_to(&"a".to_string(), vec![]),
        Err(CoordinatorError::ServiceUnavailable)
    ));
}

#[test]
fn send_to_an_unknown_endpoint_is_refused() {
    let mut coordinator = running_coordinator();
    assert!(matches!(
        coordinator.send_to(&"ghost".to_string(), vec![]),
        Err(CoordinatorError::UnknownEndpoint)
    ));
}

#[test]
fn send_name_falls_back_to_unknown_device() {
    let mut coordinator = running_coordinator();
    coordinator.handle_discovery(endpoint("a", None, Some(true)));
    let info = coordinator.send_to(&"a".to_string(), vec![]).unwrap();
    assert_eq!(info.name, "Unknown device");
}

#[test]
fn refresh_removes_exactly_the_settled_sessions() {
    let mut coordinator = running_coordinator();
    coordinator.handle_discovery(endpoint("a", None, Some(true)));
    coordinator.handle_discovery(endpoint("b", None, Some(true)));
    coordinator.handle_discovery(endpoint("c", None, Some(true)));
    coordinator.handle_discovery(endpoint("d", None, Some(true)));
    coordinator.handle_discovery(endpoint("e", None, Some(true)));
    // Order is now [e, d, c, b, a].
    coordinator.route_message(outbound_event("a", ProtocolState::SentIntroduction), 0);
    coordinator.route_message(outbound_event("b", ProtocolState::Disconnected), 0);
    coordinator.route_message(outbound_event("d", ProtocolState::SendingFiles), 0);
    coordinator.route_message(outbound_event("e", ProtocolState::Finished), 0);
    // a: RequestedForConsent (kept), b: Failed (removed), c: idle (removed),
    // d: OngoingTransfer (kept), e: Done (removed).
    coordinator.refresh_recipients();
    let ids: Vec<&str> = coordinator
        .recipients
        .iter()
        .map(|s| s.endpoint_info.id.as_str())
        .collect();
    assert_eq!(ids, vec!["d", "a"]);
}

#[test]
fn refresh_on_settled_sessions_only_empties_the_registry() {
    let mut coordinator = running_coordinator();
    coordinator.handle_discovery(endpoint("a", None, Some(true)));
    coordinator.handle_discovery(endpoint("b", None, Some(true)));
    coordinator.refresh_recipients();
    assert!(coordinator.recipients.is_empty());
}

#[test]
fn internal_messages_change_nothing() {
    let mut coordinator = running_coordinator();
    coordinator.handle_discovery(endpoint("a", None, Some(true)));
    coordinator.route_message(outbound_event("a", ProtocolState::SendingFiles), 0);
    let states_before: Vec<TransferState> = coordinator
        .recipients
        .iter()
        .map(|s| s.transfer_state)
        .collect();
    for i in 0..32 {
        let effect = coordinator.route_message(internal_event(&format!("t{i}")), i);
        assert!(matches!(effect, RouterEffect::Internal));
    }
    let states_after: Vec<TransferState> = coordinator
        .recipients
        .iter()
        .map(|s| s.transfer_state)
        .collect();
    assert_eq!(states_before, states_after);
    assert_eq!(coordinator.recipients.len(), 1);
    assert!(coordinator.inbound.is_none());
    assert_eq!(coordinator.next_notification_id, 0);
}

#[test]
fn events_for_unknown_outbound_sessions_are_dropped_silently() {
    let mut coordinator = running_coordinator();
    let effect = coordinator.route_message(
        outbound_event("ghost", ProtocolState::SendingFiles),
        0,
    );
    assert!(matches!(effect, RouterEffect::Dropped));
    assert!(coordinator.recipients.is_empty());
}

#[test]
fn consent_request_creates_the_inbound_session() {
    let mut coordinator = running_coordinator();
    let effect = coordinator.route_message(
        inbound_event("r1", ProtocolState::WaitingForUserConsent, 1000, 0),
        0,
    );
    match effect {
        RouterEffect::InboundCreated { notification_id } => assert_eq!(notification_id, 0),
        _ => panic!("expected an inbound session"),
    }
    let cache = coordinator.inbound.as_ref().unwrap();
    assert_eq!(cache.transfer_id, "r1");
    assert!(cache.state.user_action.is_none());
    assert_eq!(coordinator.next_notification_id, 1);
}

#[test]
fn second_consent_request_while_occupied_is_dropped() {
    let mut coordinator = running_coordinator();
    coordinator.route_message(
        inbound_event("r1", ProtocolState::WaitingForUserConsent, 1000, 0),
        0,
    );
    let effect = coordinator.route_message(
        inbound_event("r2", ProtocolState::WaitingForUserConsent, 500, 0),
        1,
    );
    assert!(matches!(effect, RouterEffect::Dropped));
    assert_eq!(coordinator.inbound.as_ref().unwrap().transfer_id, "r1");
}

#[test]
fn inbound_progress_reaches_the_slot_only_for_the_matching_id() {
    let mut coordinator = running_coordinator();
    coordinator.route_message(
        inbound_event("r1", ProtocolState::WaitingForUserConsent, 1000, 0),
        0,
    );
    let effect = coordinator.route_message(
        inbound_event("r2", ProtocolState::ReceivingFiles, 1000, 100),
        500,
    );
    assert!(matches!(effect, RouterEffect::Dropped));
    let effect = coordinator.route_message(
        inbound_event("r1", ProtocolState::ReceivingFiles, 1000, 0),
        1000,
    );
    assert!(matches!(effect, RouterEffect::InboundUpdated));
    let effect = coordinator.route_message(
        inbound_event("r1", ProtocolState::ReceivingFiles, 1000, 100),
        2000,
    );
    assert!(matches!(effect, RouterEffect::InboundUpdated));
    let cache = coordinator.inbound.as_ref().unwrap();
    assert_eq!(cache.state.eta.get_estimate_string(), "  9 seconds");
}

#[test]
fn terminal_inbound_event_releases_the_slot() {
    let mut coordinator = running_coordinator();
    coordinator.route_message(
        inbound_event("r1", ProtocolState::WaitingForUserConsent, 1000, 0),
        0,
    );
    let effect = coordinator.route_message(
        inbound_event("r1", ProtocolState::Finished, 1000, 1000),
        1,
    );
    match effect {
        RouterEffect::InboundClosed { cache, last } => {
            assert_eq!(cache.transfer_id, "r1");
            assert_eq!(last.id, "r1");
        }
        _ => panic!("expected the inbound slot to close"),
    }
    assert!(coordinator.inbound.is_none());
    // The slot is free again: a new consent request gets a fresh
    // notification identifier.
    let effect = coordinator.route_message(
        inbound_event("r2", ProtocolState::WaitingForUserConsent, 500, 0),
        2,
    );
    match effect {
        RouterEffect::InboundCreated { notification_id } => assert_eq!(notification_id, 1),
        _ => panic!("expected a fresh inbound session"),
    }
}

#[test]
fn consent_response_forwards_the_matching_action() {
    let mut coordinator = running_coordinator();
    coordinator.route_message(
        inbound_event("r1", ProtocolState::WaitingForUserConsent, 1000, 0),
        0,
    );
    let action = coordinator.respond_to_consent(true).unwrap();
    assert_eq!(action.id, "r1");
    assert!(matches!(
        action.msg,
        Message::Lib { action: TransferAction::ConsentAccept }
    ));
}

#[test]
fn consent_response_without_an_inbound_session_is_refused() {
    let mut coordinator = running_coordinator();
    assert!(matches!(
        coordinator.respond_to_consent(false),
        Err(CoordinatorError::NoInboundTransfer)
    ));
    let mut stopped = Coordinator::new();
    assert!(matches!(
        stopped.respond_to_consent(true),
        Err(CoordinatorError::ServiceUnavailable)
    ));
}

#[test]
fn accept_just_before_the_deadline_wins_the_race() {
    let mut coordinator = running_coordinator();
    coordinator.route_message(
        inbound_event("r1", ProtocolState::WaitingForUserConsent, 1000, 0),
        0,
    );
    coordinator.respond_to_consent(true).unwrap();
    assert!(coordinator.on_consent_timeout(&"r1".to_string()).is_none());
}

#[test]
fn unanswered_consent_times_out_into_exactly_one_decline() {
    let mut coordinator = running_coordinator();
    coordinator.route_message(
        inbound_event("r1", ProtocolState::WaitingForUserConsent, 1000, 0),
        0,
    );
    let decline = coordinator
        .on_consent_timeout(&"r1".to_string())
        .expect("timeout must decline once");
    assert_eq!(decline.id, "r1");
    assert!(matches!(
        decline.msg,
        Message::Lib { action: TransferAction::ConsentDecline }
    ));
    assert!(coordinator.on_consent_timeout(&"r1".to_string()).is_none());
}

#[test]
fn late_timer_for_a_superseded_transfer_changes_nothing() {
    let mut coordinator = running_coordinator();
    coordinator.route_message(
        inbound_event("r1", ProtocolState::WaitingForUserConsent, 1000, 0),
        0,
    );
    assert!(coordinator.on_consent_timeout(&"r0".to_string()).is_none());
    assert!(coordinator.inbound.as_ref().unwrap().state.user_action.is_none());
}

#[test]
fn cancel_marks_an_accepted_inbound_transfer_user_cancelled() {
    let mut coordinator = running_coordinator();
    coordinator.route_message(
        inbound_event("r1", ProtocolState::WaitingForUserConsent, 1000, 0),
        0,
    );
    coordinator.respond_to_consent(true).unwrap();
    let action = coordinator.cancel_transfer(&"r1".to_string()).unwrap();
    assert_eq!(action.id, "r1");
    assert!(matches!(
        action.msg,
        Message::Lib { action: TransferAction::TransferCancel }
    ));
    assert!(coordinator.inbound.as_ref().unwrap().state.user_cancelled);
}

#[test]
fn cancel_before_an_accept_leaves_the_inbound_session_untouched() {
    let mut coordinator = running_coordinator();
    coordinator.route_message(
        inbound_event("r1", ProtocolState::WaitingForUserConsent, 1000, 0),
        0,
    );
    let action = coordinator.cancel_transfer(&"r1".to_string()).unwrap();
    assert_eq!(action.id, "r1");
    assert!(matches!(
        action.msg,
        Message::Lib { action: TransferAction::TransferCancel }
    ));
    let cache = coordinator.inbound.as_ref().unwrap();
    assert!(cache.state.user_action.is_none());
    assert!(!cache.state.user_cancelled);
}

#[test]
fn a_second_consent_response_is_refused_and_the_first_stands() {
    let mut coordinator = running_coordinator();
    coordinator.route_message(
        inbound_event("r1", ProtocolState::WaitingForUserConsent, 1000, 0),
        0,
    );
    coordinator.respond_to_consent(true).unwrap();
    assert!(matches!(
        coordinator.respond_to_consent(false),
        Err(CoordinatorError::AlreadyDecided)
    ));
    let cache = coordinator.inbound.as_ref().unwrap();
    assert_eq!(
        cache.state.user_action,
        Some(packet::protocol::UserAction::ConsentAccept)
    );
}

#[test]
fn cancel_for_any_other_id_builds_the_engine_action() {
    let mut coordinator = running_coordinator();
    let action = coordinator.cancel_transfer(&"t9".to_string()).unwrap();
    assert_eq!(action.id, "t9");
    assert!(matches!(
        action.msg,
        Message::Lib { action: TransferAction::TransferCancel }
    ));
    let mut stopped = Coordinator::new();
    assert!(matches!(
        stopped.cancel_transfer(&"t9".to_string()),
        Err(CoordinatorError::ServiceUnavailable)
    ));
}

#[test]
fn stop_all_empties_the_handle_list_idempotently() {
    let mut supervisor = TaskSupervisor::new();
    supervisor.push(LoopingTaskHandle::Tokio(1));
    supervisor.push(LoopingTaskHandle::Glib(2));
    supervisor.push(LoopingTaskHandle::Tokio(3));
    let cancelled = supervisor.stop_all();
    assert_eq!(
        cancelled,
        vec![
            LoopingTaskHandle::Tokio(3),
            LoopingTaskHandle::Glib(2),
            LoopingTaskHandle::Tokio(1),
        ]
    );
    assert_eq!(supervisor.len(), 0);
    let again = supervisor.stop_all();
    assert!(again.is_empty());
    assert_eq!(supervisor.len(), 0);
}

#[test]
fn stopping_the_coordinator_cancels_tasks_in_reverse_order() {
    let mut coordinator = running_coordinator();
    coordinator.register_task(LoopingTaskHandle::Tokio(10));
    coordinator.register_task(LoopingTaskHandle::Glib(11));
    let cancelled = coordinator.begin_stop();
    assert_eq!(
        cancelled,
        vec![LoopingTaskHandle::Glib(11), LoopingTaskHandle::Tokio(10)]
    );
    assert_eq!(coordinator.service, ServiceState::Stopping);
    assert!(coordinator.begin_stop().is_empty());
    coordinator.finish_stop();
    assert_eq!(coordinator.service, ServiceState::Stopped);
}

#[test]
fn failed_start_leaves_the_service_unavailable() {
    let mut coordinator = Coordinator::new();
    coordinator.begin_start();
    coordinator.finish_start(false);
    assert_eq!(coordinator.service, ServiceState::Failed);
    coordinator.handle_discovery(endpoint("a", None, Some(true)));
    assert!(matches!(
        coordinator.send_to(&"a".to_string(), vec![]),
        Err(CoordinatorError::ServiceUnavailable)
    ));
}

#[test]
fn visibility_changes_need_a_running_engine() {
    let coordinator = running_coordinator();
    assert_eq!(coordinator.set_visibility(false), Ok(false));
    assert_eq!(coordinator.set_visibility(true), Ok(true));
    let stopped = Coordinator::new();
    assert_eq!(
        stopped.set_visibility(true),
        Err(CoordinatorError::ServiceUnavailable)
    );
}

#[test]
fn discovery_flag_follows_force_and_current_state() {
    let mut coordinator = running_coordinator();
    assert!(coordinator.start_discovery(None));
    assert!(!coordinator.start_discovery(None));
    assert!(coordinator.start_discovery(Some(true)));
    assert!(coordinator.stop_discovery());
    assert!(!coordinator.stop_discovery());
    assert!(!coordinator.start_discovery(Some(false)));
    assert!(!coordinator.discovery_on);
}

#[test]
fn is_no_file_being_send_reads_the_last_events() {
    let mut coordinator = running_coordinator();
    coordinator.handle_discovery(endpoint("a", None, Some(true)));
    assert!(coordinator.is_no_file_being_send());
    coordinator.route_message(outbound_event("a", ProtocolState::SendingFiles), 0);
    assert!(!coordinator.is_no_file_being_send());
    coordinator.route_message(outbound_event("a", ProtocolState::Finished), 1);
    assert!(coordinator.is_no_file_being_send());
}

#[test]
fn shutdown_withdraws_only_pending_notifications() {
    let mut coordinator = running_coordinator();
    assert!(coordinator.shutdown_notification().is_none());
    coordinator.route_message(
        inbound_event("r1", ProtocolState::WaitingForUserConsent, 1000, 0),
        0,
    );
    assert_eq!(coordinator.shutdown_notification(), Some(0));
}

#[test]
fn file_filter_keeps_regular_non_empty_new_files() {
    let existing = vec!["a.txt".to_string()];
    let candidates = vec![
        CandidateFile { name: "a.txt".to_string(), is_regular: true, size: 10 },
        CandidateFile { name: "b.txt".to_string(), is_regular: true, size: 0 },
        CandidateFile { name: "c.txt".to_string(), is_regular: false, size: 10 },
        CandidateFile { name: "d.txt".to_string(), is_regular: true, size: 10 },
    ];
    let (kept, is_already) = filter_added_files(&existing, candidates);
    assert_eq!(kept, vec!["d.txt".to_string()]);
    assert!(!is_already);
}

#[test]
fn file_filter_reports_a_fully_duplicate_request() {
    let existing = vec!["a.txt".to_string(), "b.txt".to_string()];
    let candidates = vec![
        CandidateFile { name: "a.txt".to_string(), is_regular: true, size: 10 },
        CandidateFile { name: "b.txt".to_string(), is_regular: true, size: 5 },
    ];
    let (kept, is_already) = filter_added_files(&existing, candidates);
    assert!(kept.is_empty());
    assert!(is_already);
}

#[test]
fn file_filter_on_no_candidates_counts_as_duplicate() {
    let (kept, is_already) = filter_added_files(&vec![], vec![]);
    assert!(kept.is_empty());
    assert!(is_already);
}

#[test]
fn tray_messages_are_distinct() {
    assert_ne!(TrayMessage::OpenWindow, TrayMessage::Quit);
    assert_eq!(TrayMessage::Quit, TrayMessage::Quit);
}
