use meshh_tui::api::{
    ApiError, DeliveryDetail, DeliveryListItem, DeliveryListPage, DeliveryStatus,
    DeliveryStreamFrame, MatchedRoute, PublicDeliveryId, StreamCursor, TransportError,
};
use meshh_tui::tui::events::{LoadWorkerMessage, apply_load_message};
use meshh_tui::tui::state::{
    AppCommand, AppErrorKind, AppState, DeliveryListStatus, DetailStatus, KeyAction, Screen,
    StreamStatus,
};
use meshh_tui::tui::time_display::{format_delivery_timestamp, local_offset_seconds};
use meshh_tui::update::UpdateNotice;
use meshh_tui::tui::view::{
    delivery_row_cells, detail_screen_lines, empty_list_message, footer_text, header_line,
    list_headings,
};

#[test]
fn loading_deliveries_populates_rows_and_selects_the_first_item() {
    let mut state = AppState::default();

    state.start_loading();
    assert_eq!(state.delivery_list_status(), &DeliveryListStatus::Loading);

    apply_page(
        &mut state,
        DeliveryListPage::new(
            vec![
                delivery("del_pub_01", "CPU alert routed to ops", Some("Datadog")),
                delivery("del_pub_02", "Deploy complete", None),
            ],
            Some(StreamCursor::new("cur_next").unwrap()),
        ),
    );

    assert_eq!(state.delivery_list_status(), &DeliveryListStatus::Ready);
    assert_eq!(state.deliveries().len(), 2);
    assert_eq!(state.deliveries()[0].headline(), "CPU alert routed to ops");
    assert_eq!(state.deliveries()[0].source_context(), Some("Datadog"));
    assert_eq!(state.selected_index(), Some(0));
    assert_eq!(
        state.next_cursor().map(StreamCursor::as_str),
        Some("cur_next")
    );
}

#[test]
fn keyboard_navigation_opens_loads_and_closes_detail() {
    let mut state = AppState::default();
    apply_page(
        &mut state,
        DeliveryListPage::new(
            vec![
                delivery("del_pub_01", "CPU alert routed to ops", Some("Datadog")),
                delivery("del_pub_02", "Deploy complete", Some("GitHub")),
            ],
            None,
        ),
    );

    state.handle_key_action(KeyAction::Down);
    assert_eq!(state.selected_index(), Some(1));

    let command = state.handle_key_action(KeyAction::Open);
    assert_eq!(
        command,
        AppCommand::LoadDetail {
            public_delivery_id: PublicDeliveryId::new("del_pub_02").unwrap(),
            generation: state.detail_request_generation()
        }
    );
    assert_eq!(state.detail_status(), &DetailStatus::Loading);
    assert!(matches!(
        state.screen(),
        Screen::DeliveryDetail { public_delivery_id }
            if public_delivery_id.as_str() == "del_pub_02"
    ));

    apply_detail(&mut state, detail("del_pub_02", "Deploy complete"));

    assert_eq!(state.detail_status(), &DetailStatus::Ready);
    assert_eq!(state.detail().unwrap().headline(), "Deploy complete");
    assert_eq!(
        state.detail().unwrap().source_url(),
        Some("https://alerts.example/del_pub_02")
    );
    assert_eq!(
        state.detail().unwrap().matched_routes()[0].name(),
        "Ops Escalation"
    );

    assert_eq!(state.handle_key_action(KeyAction::Back), AppCommand::Nothing);
    assert_eq!(state.screen(), &Screen::DeliveryList);
    assert_eq!(state.detail_status(), &DetailStatus::Hidden);
    assert!(state.detail().is_none());
}

#[test]
fn keyboard_refresh_and_quit_commands_are_explicit() {
    let mut state = AppState::default();
    apply_page(
        &mut state,
        DeliveryListPage::new(
            vec![delivery("del_pub_01", "CPU alert routed to ops", None)],
            None,
        ),
    );

    assert_eq!(
        state.handle_key_action(KeyAction::Refresh),
        AppCommand::LoadDeliveries {
            generation: state.list_request_generation()
        }
    );
    assert_eq!(state.delivery_list_status(), &DeliveryListStatus::Loading);
    assert_eq!(state.handle_key_action(KeyAction::Quit), AppCommand::Quit);
}

#[test]
fn stale_list_load_results_do_not_replace_newer_state() {
    let mut state = AppState::default();
    state.start_loading();
    let stale_generation = state.list_request_generation();
    state.start_loading();
    let active_generation = state.list_request_generation();

    apply_load_message(
        &mut state,
        LoadWorkerMessage::DeliveryPage {
            generation: stale_generation,
            result: Ok(DeliveryListPage::new(
                vec![delivery("del_pub_old", "Old result", None)],
                None,
            )),
        },
    );

    assert_eq!(state.delivery_list_status(), &DeliveryListStatus::Loading);
    assert!(state.deliveries().is_empty());

    apply_load_message(
        &mut state,
        LoadWorkerMessage::DeliveryPage {
            generation: active_generation,
            result: Ok(DeliveryListPage::new(
                vec![delivery("del_pub_new", "New result", None)],
                None,
            )),
        },
    );

    assert_eq!(state.delivery_list_status(), &DeliveryListStatus::Ready);
    assert_eq!(state.deliveries()[0].headline(), "New result");
}

#[test]
fn stale_detail_load_results_do_not_reopen_closed_or_replaced_detail() {
    let mut state = AppState::default();
    apply_page(
        &mut state,
        DeliveryListPage::new(
            vec![
                delivery("del_pub_01", "First row", None),
                delivery("del_pub_02", "Second row", None),
            ],
            None,
        ),
    );

    let first_public_delivery_id = state.open_selected_detail().unwrap();
    let first_generation = state.detail_request_generation();
    state.close_detail();

    apply_load_message(
        &mut state,
        LoadWorkerMessage::Detail {
            public_delivery_id: first_public_delivery_id,
            generation: first_generation,
            result: Ok(detail("del_pub_01", "First row")),
        },
    );

    assert_eq!(state.screen(), &Screen::DeliveryList);
    assert_eq!(state.detail_status(), &DetailStatus::Hidden);
    assert!(state.detail().is_none());

    state.select_next();
    let second_public_delivery_id = state.open_selected_detail().unwrap();
    let second_generation = state.detail_request_generation();
    apply_load_message(
        &mut state,
        LoadWorkerMessage::Detail {
            public_delivery_id: second_public_delivery_id,
            generation: second_generation,
            result: Ok(detail("del_pub_02", "Second row")),
        },
    );

    assert_eq!(state.detail_status(), &DetailStatus::Ready);
    assert_eq!(state.detail().unwrap().headline(), "Second row");
}

#[test]
fn stream_frames_insert_rows_deduplicate_replays_track_resume_and_show_auth_errors() {
    let mut state = AppState::default();
    apply_page(
        &mut state,
        DeliveryListPage::new(
            vec![delivery_with_cursor(
                "del_pub_01",
                "CPU alert routed to ops",
                Some("Datadog"),
                Some("cur_01"),
            )],
            Some(StreamCursor::new("cur_history").unwrap()),
        ),
    );

    assert_eq!(
        state.stream_resume_cursor().map(StreamCursor::as_str),
        Some("cur_01")
    );

    state.start_stream();
    assert_eq!(state.stream_status(), &StreamStatus::Connecting);

    let replayed_delivery = delivery("del_pub_02", "Deploy complete", Some("GitHub"));
    state.receive_stream_frames(vec![
        DeliveryStreamFrame::Delivery {
            cursor: Some(StreamCursor::new("cur_02").unwrap()),
            item: replayed_delivery.clone(),
        },
        DeliveryStreamFrame::Delivery {
            cursor: Some(StreamCursor::new("cur_02").unwrap()),
            item: replayed_delivery,
        },
        DeliveryStreamFrame::Cursor(StreamCursor::new("cur_03").unwrap()),
    ]);

    assert_eq!(state.stream_status(), &StreamStatus::Live);
    assert_eq!(state.deliveries().len(), 2);
    assert_eq!(
        state.deliveries()[0].public_delivery_id().as_str(),
        "del_pub_02"
    );
    assert_eq!(
        state.stream_resume_cursor().map(StreamCursor::as_str),
        Some("cur_03")
    );

    state.receive_stream_error(&ApiError::Authentication {
        operation: "streaming deliveries",
        status: 401,
        body: "token_expired".to_owned(),
    });

    let StreamStatus::Error(error) = state.stream_status() else {
        panic!("expected visible stream auth error");
    };
    assert_eq!(error.kind(), AppErrorKind::Authentication);
    assert!(error.message().contains("stored token"));

    let rendered = screen_text(&state);
    assert!(rendered.contains("meshh-tui v0.1.0"));
    assert!(rendered.contains("Authentication error"));
    assert!(rendered.contains("2 rows"));
    assert!(!rendered.contains("resume:"));
    assert!(!rendered.contains("cur_03"));
}

#[test]
fn cursor_frame_does_not_dedupe_following_delivery_with_same_cursor() {
    let mut state = AppState::default();
    apply_page(&mut state, DeliveryListPage::new(Vec::new(), None));

    state.receive_stream_frames(vec![
        DeliveryStreamFrame::Cursor(StreamCursor::new("cur_01").unwrap()),
        DeliveryStreamFrame::Delivery {
            cursor: Some(StreamCursor::new("cur_01").unwrap()),
            item: delivery("del_pub_01", "Deploy complete", Some("GitHub")),
        },
    ]);

    assert_eq!(state.deliveries().len(), 1);
    assert_eq!(
        state.deliveries()[0].public_delivery_id().as_str(),
        "del_pub_01"
    );
    assert_eq!(
        state.stream_resume_cursor().map(StreamCursor::as_str),
        Some("cur_01")
    );
}

#[test]
fn connected_stream_frame_marks_empty_delivery_list_live() {
    let mut state = AppState::default();
    apply_page(&mut state, DeliveryListPage::new(Vec::new(), None));
    state.start_stream();

    state.receive_stream_frames(vec![DeliveryStreamFrame::Connected]);

    assert_eq!(state.delivery_list_status(), &DeliveryListStatus::Empty);
    assert_eq!(state.stream_status(), &StreamStatus::Live);
    assert!(state.deliveries().is_empty());
}

#[test]
fn stream_metadata_frames_do_not_hide_delivery_list_load_errors() {
    let mut state = AppState::default();
    apply_list_error(
        &mut state,
        &ApiError::Transport {
            source: TransportError::new("connection refused"),
        },
    );
    state.start_stream();

    state.receive_stream_frames(vec![
        DeliveryStreamFrame::Connected,
        DeliveryStreamFrame::Cursor(StreamCursor::new("cur_01").unwrap()),
    ]);

    let DeliveryListStatus::Error(error) = state.delivery_list_status() else {
        panic!("expected delivery list error to remain visible");
    };
    assert_eq!(error.kind(), AppErrorKind::Network);
    assert_eq!(state.stream_status(), &StreamStatus::Live);
    assert!(state.deliveries().is_empty());
}

#[test]
fn empty_delivery_list_surfaces_stream_errors() {
    let mut state = AppState::default();
    apply_page(&mut state, DeliveryListPage::new(Vec::new(), None));

    state.receive_stream_error(&ApiError::Transport {
        source: TransportError::new("connection refused"),
    });

    let rendered = screen_text(&state);

    assert!(rendered.contains("meshh-tui v0.1.0 | reconnecting: Network error"));
    assert!(rendered.contains("network error"));
}

#[test]
fn empty_auth_and_network_states_are_visible_without_terminal_io() {
    let mut state = AppState::default();

    apply_page(&mut state, DeliveryListPage::new(Vec::new(), None));
    assert_eq!(state.delivery_list_status(), &DeliveryListStatus::Empty);
    assert_eq!(state.selected_index(), None);

    apply_list_error(
        &mut state,
        &ApiError::Authentication {
            operation: "listing deliveries",
            status: 401,
            body: "token_expired".to_owned(),
        },
    );

    let DeliveryListStatus::Error(error) = state.delivery_list_status() else {
        panic!("expected auth list error");
    };
    assert_eq!(error.kind(), AppErrorKind::Authentication);
    assert!(error.message().contains("stored token"));

    apply_page(
        &mut state,
        DeliveryListPage::new(
            vec![delivery("del_pub_01", "CPU alert routed to ops", None)],
            None,
        ),
    );
    state.open_selected_detail().unwrap();
    apply_detail_error(
        &mut state,
        &ApiError::Transport {
            source: TransportError::new("connection refused"),
        },
    );

    let DetailStatus::Error(error) = state.detail_status() else {
        panic!("expected network detail error");
    };
    assert_eq!(error.kind(), AppErrorKind::Network);
    assert!(error.message().contains("network error"));
}

#[test]
fn render_outputs_list_columns_and_detail_fields() {
    let mut state = AppState::default();
    apply_page(
        &mut state,
        DeliveryListPage::new(
            vec![delivery(
                "del_pub_01",
                "CPU alert routed to ops",
                Some("Datadog"),
            )],
            Some(StreamCursor::new("cur_next").unwrap()),
        ),
    );

    let list_text = screen_text(&state);
    assert!(list_text.contains("meshh-tui v0.1.0 | offline | 1 row | row 1/1"));
    assert!(!list_text.contains("resume:"));
    assert!(!list_text.contains("history:"));
    assert!(list_text.contains("CPU alert routed to ops"));
    assert!(list_text.contains("Datadog"));
    assert!(list_text.contains("delivered"));
    assert!(list_text.contains("Published"));
    let expected_timestamp = format_delivery_timestamp(Some("2026-06-04T19:09:10Z"));
    assert!(list_text.contains(&expected_timestamp));

    state.open_selected_detail().unwrap();
    apply_detail(&mut state, detail("del_pub_01", "CPU alert routed to ops"));

    let detail_text = screen_text(&state);
    assert!(detail_text.contains("CPU alert routed to ops"));
    assert!(detail_text.contains("A production route matched this delivery."));
    assert!(detail_text.contains("https://alerts.example/del_pub_01"));
    assert!(detail_text.contains("Ops Escalation"));
    assert!(detail_text.contains(&format!("Published: {expected_timestamp}")));
}

#[test]
fn selection_moves_within_the_list() {
    let mut state = AppState::default();
    apply_page(
        &mut state,
        DeliveryListPage::new(
            vec![
                delivery("del_pub_01", "First row", None),
                delivery("del_pub_02", "Second row", None),
                delivery("del_pub_03", "Third row", None),
            ],
            None,
        ),
    );

    state.select_previous();
    assert_eq!(state.selected_index(), Some(0));
    state.select_next();
    state.select_next();
    state.select_next();
    assert_eq!(state.selected_index(), Some(2));
    state.select_previous();
    state.select_next();
    assert_eq!(state.selected_index(), Some(2));
    state.select_previous();
    assert_eq!(state.selected_index(), Some(1));
    assert_eq!(
        state.selected_delivery().unwrap().public_delivery_id().as_str(),
        "del_pub_02"
    );
}

#[test]
fn live_delivery_with_known_id_replaces_the_old_row_and_keeps_selection() {
    let mut state = AppState::default();
    apply_page(
        &mut state,
        DeliveryListPage::new(
            vec![
                delivery("del_pub_01", "First row", None),
                delivery("del_pub_02", "Second row", None),
            ],
            None,
        ),
    );
    state.select_next();

    state.receive_stream_frames(vec![DeliveryStreamFrame::Delivery {
        cursor: Some(StreamCursor::new("cur_09").unwrap()),
        item: delivery("del_pub_01", "First row, updated", None),
    }]);

    assert_eq!(state.deliveries().len(), 2);
    assert_eq!(state.deliveries()[0].headline(), "First row, updated");
    assert_eq!(
        state.deliveries()[1].public_delivery_id().as_str(),
        "del_pub_02"
    );
    assert_eq!(
        state.selected_delivery().unwrap().public_delivery_id().as_str(),
        "del_pub_02"
    );
}

#[test]
fn replaying_the_same_frames_adds_nothing() {
    let mut state = AppState::default();
    apply_page(&mut state, DeliveryListPage::new(Vec::new(), None));
    let frames = || {
        vec![DeliveryStreamFrame::Delivery {
            cursor: Some(StreamCursor::new("cur_05").unwrap()),
            item: delivery("del_pub_05", "Fifth", None),
        }]
    };

    state.receive_stream_frames(frames());
    state.receive_stream_frames(frames());

    assert_eq!(state.deliveries().len(), 1);
}

#[test]
fn closed_detail_ignores_late_errors_too() {
    let mut state = AppState::default();
    apply_page(
        &mut state,
        DeliveryListPage::new(vec![delivery("del_pub_01", "First row", None)], None),
    );
    let id = state.open_selected_detail().unwrap();
    let generation = state.detail_request_generation();
    state.close_detail();

    apply_load_message(
        &mut state,
        LoadWorkerMessage::Detail {
            public_delivery_id: id,
            generation,
            result: Err(ApiError::InvalidResponse {
                message: "bad".to_owned(),
            }),
        },
    );

    assert_eq!(state.detail_status(), &DetailStatus::Hidden);
}

#[test]
fn list_errors_keep_loaded_rows() {
    let mut state = AppState::default();
    apply_page(
        &mut state,
        DeliveryListPage::new(vec![delivery("del_pub_01", "First row", None)], None),
    );
    state.start_loading();
    let generation = state.list_request_generation();
    apply_load_message(
        &mut state,
        LoadWorkerMessage::DeliveryPage {
            generation,
            result: Err(ApiError::HttpStatus {
                operation: "listing deliveries",
                status: 503,
                body: String::new(),
            }),
        },
    );

    let DeliveryListStatus::Error(error) = state.delivery_list_status() else {
        panic!("expected list error");
    };
    assert_eq!(error.kind(), AppErrorKind::Api);
    assert_eq!(
        error.message(),
        "MESHH API returned HTTP 503 while listing deliveries"
    );
    assert_eq!(state.deliveries().len(), 1);
}

fn screen_text(state: &AppState) -> String {
    let mut lines = vec![header_line(state)];
    match state.screen() {
        Screen::DeliveryList => {
            if state.deliveries().is_empty() {
                lines.push(empty_list_message(state).to_owned());
            } else {
                lines.push(list_headings().join(" "));
                for item in state.deliveries() {
                    lines.push(delivery_row_cells(item, local_offset_seconds()).join(" "));
                }
            }
        }
        Screen::DeliveryDetail { .. } => {
            lines.extend(detail_screen_lines(state, local_offset_seconds()));
        }
    }
    lines.push(footer_text(state.screen()).to_owned());
    lines.join("\n")
}

fn delivery(
    public_delivery_id: &str,
    headline: &str,
    source_context: Option<&str>,
) -> DeliveryListItem {
    delivery_with_cursor(public_delivery_id, headline, source_context, None)
}

fn delivery_with_cursor(
    public_delivery_id: &str,
    headline: &str,
    source_context: Option<&str>,
    cursor: Option<&str>,
) -> DeliveryListItem {
    DeliveryListItem::new(
        PublicDeliveryId::new(public_delivery_id).unwrap(),
        headline,
        source_context.map(str::to_owned),
        DeliveryStatus::new("delivered").unwrap(),
        Some("2026-06-04T19:09:10Z".to_owned()),
        Some("2026-06-04T02:03:04Z".to_owned()),
        cursor.map(|cursor| StreamCursor::new(cursor).unwrap()),
    )
    .unwrap()
}

fn detail(public_delivery_id: &str, headline: &str) -> DeliveryDetail {
    DeliveryDetail::new(
        PublicDeliveryId::new(public_delivery_id).unwrap(),
        headline,
        Some("A production route matched this delivery.".to_owned()),
        Some("Full routed notification body.".to_owned()),
        Some(format!("https://alerts.example/{public_delivery_id}")),
        Some("GitHub".to_owned()),
        DeliveryStatus::new("delivered").unwrap(),
        Some("2026-06-04T19:09:10Z".to_owned()),
        Some("2026-06-04T02:03:04Z".to_owned()),
        vec![MatchedRoute::new("Ops Escalation").unwrap()],
        None,
    )
    .unwrap()
}

fn apply_page(state: &mut AppState, page: DeliveryListPage) {
    state.receive_delivery_page(state.list_request_generation(), page);
}

fn apply_list_error(state: &mut AppState, error: &ApiError) {
    state.receive_list_error(state.list_request_generation(), error);
}

fn apply_detail(state: &mut AppState, detail: DeliveryDetail) {
    state.receive_detail(state.detail_request_generation(), detail);
}

fn apply_detail_error(state: &mut AppState, error: &ApiError) {
    state.receive_detail_error(state.detail_request_generation(), error);
}

#[test]
fn up_and_down_change_nothing_on_the_detail_screen() {
    let mut state = AppState::default();
    state.start_loading();
    apply_page(
        &mut state,
        DeliveryListPage::new(
            vec![
                delivery("del_pub_01", "First row", None),
                delivery("del_pub_02", "Second row", None),
            ],
            Some(StreamCursor::new("cur_next").unwrap()),
        ),
    );
    state.open_selected_detail().unwrap();
    apply_detail(&mut state, detail("del_pub_01", "First row"));
    let before = format!("{state:?}");

    assert_eq!(state.handle_key_action(KeyAction::Up), AppCommand::Nothing);
    assert_eq!(format!("{state:?}"), before);
    assert_eq!(state.handle_key_action(KeyAction::Down), AppCommand::Nothing);
    assert_eq!(format!("{state:?}"), before);
    assert_eq!(state.list_request_generation(), 1);
    assert_eq!(state.next_cursor().map(|c| c.as_str()), Some("cur_next"));
}

#[test]
fn only_receiving_a_notice_changes_it() {
    let mut state = AppState::default();
    assert!(state.update_notice().is_none());
    state.receive_update_notice(Some(UpdateNotice::new("v0.2.0")));
    state.start_loading();
    apply_page(
        &mut state,
        DeliveryListPage::new(vec![delivery("del_pub_01", "First row", None)], None),
    );
    state.start_stream();
    state.handle_key_action(KeyAction::Down);
    state.handle_key_action(KeyAction::Open);
    state.handle_key_action(KeyAction::Refresh);
    state.handle_key_action(KeyAction::Back);
    state.receive_stream_error(&ApiError::Transport {
        source: TransportError::new("connection refused"),
    });
    assert_eq!(
        state.update_notice().map(|n| n.message()),
        Some("Update available: v0.2.0 - run 'meshh update'".to_owned())
    );
    state.receive_update_notice(None);
    assert!(state.update_notice().is_none());
}
