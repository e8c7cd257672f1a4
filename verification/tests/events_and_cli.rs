use meshh_tui::api::{
    ApiError, DeliveryListItem, DeliveryListPage, DeliveryStatus, PublicDeliveryId, StreamCursor,
    TransportError,
};
use meshh_tui::cli::{install_directory_text, is_install_confirmation, should_install};
use meshh_tui::tui::events::{
    KeyCode, StreamRetry, StreamWorkerMessage, after_stream_attempt, apply_stream_message,
    ensure_stream_started, key_action,
};
use meshh_tui::tui::state::{AppState, KeyAction, StreamStatus};
use meshh_tui::tui::stream_session::DeliveryStreamReconnect;
use meshh_tui::api::DeliveryStreamFrame;
use meshh_tui::update::UpdateCheck;

#[test]
fn keys_map_to_actions() {
    assert_eq!(key_action(KeyCode::Char('c'), true), Some(KeyAction::Quit));
    assert_eq!(key_action(KeyCode::Char('c'), false), None);
    assert_eq!(key_action(KeyCode::Char('q'), false), Some(KeyAction::Quit));
    assert_eq!(key_action(KeyCode::Up, false), Some(KeyAction::Up));
    assert_eq!(key_action(KeyCode::Char('k'), false), Some(KeyAction::Up));
    assert_eq!(key_action(KeyCode::Down, false), Some(KeyAction::Down));
    assert_eq!(key_action(KeyCode::Char('j'), false), Some(KeyAction::Down));
    assert_eq!(key_action(KeyCode::Enter, false), Some(KeyAction::Open));
    assert_eq!(key_action(KeyCode::Char('o'), false), Some(KeyAction::Open));
    assert_eq!(key_action(KeyCode::Esc, false), Some(KeyAction::Back));
    assert_eq!(key_action(KeyCode::Backspace, false), Some(KeyAction::Back));
    assert_eq!(key_action(KeyCode::Char('b'), false), Some(KeyAction::Back));
    assert_eq!(key_action(KeyCode::Char('r'), false), Some(KeyAction::Refresh));
    assert_eq!(key_action(KeyCode::Char('x'), false), None);
    assert_eq!(key_action(KeyCode::Other, true), None);
}

#[test]
fn stream_worker_retries_until_the_token_is_rejected() {
    assert_eq!(after_stream_attempt(true, &Ok(())), StreamRetry::Retry);
    assert_eq!(
        after_stream_attempt(false, &Ok(())),
        StreamRetry::ReportEmptyThenRetry
    );
    assert_eq!(
        after_stream_attempt(
            true,
            &Err(ApiError::Transport {
                source: TransportError::new("reset")
            })
        ),
        StreamRetry::ReportErrorThenRetry
    );
    assert_eq!(
        after_stream_attempt(
            false,
            &Err(ApiError::Authentication {
                operation: "streaming deliveries",
                status: 401,
                body: String::new()
            })
        ),
        StreamRetry::ReportErrorThenStop
    );
}

#[test]
fn stream_worker_reconnects_with_latest_seen_cursor() {
    let mut reconnect = DeliveryStreamReconnect::new(Some(StreamCursor::new("cur_01").unwrap()));
    let first = reconnect.begin_attempt();
    assert_eq!(first.as_ref().map(StreamCursor::as_str), Some("cur_01"));
    reconnect.accept_frame(&DeliveryStreamFrame::Delivery {
        cursor: Some(StreamCursor::new("cur_02").unwrap()),
        item: row("del_pub_02"),
    });
    assert!(reconnect.received_frame());
    let second = reconnect.begin_attempt();
    assert_eq!(second.as_ref().map(StreamCursor::as_str), Some("cur_02"));
    assert!(!reconnect.received_frame());
}

#[test]
fn stream_worker_resumes_after_standalone_cursor_frames() {
    let mut reconnect = DeliveryStreamReconnect::new(Some(StreamCursor::new("cur_01").unwrap()));
    reconnect.begin_attempt();
    reconnect.accept_frame(&DeliveryStreamFrame::Cursor(
        StreamCursor::new("cur_02").unwrap(),
    ));
    reconnect.accept_frame(&DeliveryStreamFrame::Connected);
    let next = reconnect.begin_attempt();
    assert_eq!(next.as_ref().map(StreamCursor::as_str), Some("cur_02"));
}

#[test]
fn stream_starts_once_the_list_has_loaded() {
    let mut state = AppState::default();
    state.start_loading();
    assert!(ensure_stream_started(&mut state, false).is_none());

    let generation = state.list_request_generation();
    state.receive_delivery_page(
        generation,
        DeliveryListPage::new(vec![row_with_cursor("del_pub_01", "cur_07")], None),
    );
    assert!(ensure_stream_started(&mut state, true).is_none());
    assert_eq!(state.stream_status(), &StreamStatus::Disconnected);

    let resume = ensure_stream_started(&mut state, false).unwrap();
    assert_eq!(resume.as_ref().map(StreamCursor::as_str), Some("cur_07"));
    assert_eq!(state.stream_status(), &StreamStatus::Connecting);

    apply_stream_message(
        &mut state,
        StreamWorkerMessage::Error(ApiError::Transport {
            source: TransportError::new("reset"),
        }),
    );
    assert!(matches!(state.stream_status(), StreamStatus::Reconnecting(_)));
    apply_stream_message(&mut state, StreamWorkerMessage::Frames(Vec::new()));
    assert_eq!(state.stream_status(), &StreamStatus::Live);
}

#[test]
fn install_confirmation_accepts_yes_answers() {
    for answer in ["y\n", "Y", " yes ", "YES\r\n", "Yes"] {
        assert!(is_install_confirmation(answer), "{answer:?}");
    }
    for answer in ["", "n", "yEs", "yes please", "no"] {
        assert!(!is_install_confirmation(answer), "{answer:?}");
    }
}

#[test]
fn update_installs_only_newer_releases_when_not_only_checking() {
    let newer = UpdateCheck::new("v0.1.0", "v0.2.0", None, None);
    let same = UpdateCheck::new("v0.2.0", "v0.2.0", None, None);
    assert!(should_install(false, &newer));
    assert!(!should_install(true, &newer));
    assert!(!should_install(false, &same));
    assert_eq!(install_directory_text("/usr/local/bin"), "Install directory: /usr/local/bin");
}

fn row(id: &str) -> DeliveryListItem {
    DeliveryListItem::new(
        PublicDeliveryId::new(id).unwrap(),
        "Headline",
        None,
        DeliveryStatus::new("delivered").unwrap(),
        None,
        None,
        None,
    )
    .unwrap()
}

fn row_with_cursor(id: &str, cursor: &str) -> DeliveryListItem {
    DeliveryListItem::new(
        PublicDeliveryId::new(id).unwrap(),
        "Headline",
        None,
        DeliveryStatus::new("delivered").unwrap(),
        None,
        None,
        Some(StreamCursor::new(cursor).unwrap()),
    )
    .unwrap()
}
