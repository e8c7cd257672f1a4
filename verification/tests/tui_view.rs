use meshh_tui::api::{
    ApiError, DeliveryDetail, DeliveryListItem, DeliveryListPage, DeliveryStatus, MatchedRoute,
    PublicDeliveryId,
};
use meshh_tui::tui::state::{AppState, Screen, StreamStatus};
use meshh_tui::tui::view::{
    delivery_row_cells, detail_text, empty_list_message, footer_text, header_activity,
    header_line, routes_text, rows_label, selection_text, stream_activity, title,
};

fn item(id: &str, source: Option<&str>, published: Option<&str>, detected: Option<&str>) -> DeliveryListItem {
    DeliveryListItem::new(
        PublicDeliveryId::new(id).unwrap(),
        "Headline",
        source.map(str::to_owned),
        DeliveryStatus::new("queued").unwrap(),
        published.map(str::to_owned),
        detected.map(str::to_owned),
        None,
    )
    .unwrap()
}

#[test]
fn header_reports_activity_rows_and_selection() {
    let mut state = AppState::default();
    assert_eq!(title(), "meshh-tui v0.1.0");
    assert_eq!(header_activity(&state), "loading");
    assert_eq!(
        header_line(&state),
        "meshh-tui v0.1.0 | loading | 0 rows | no row"
    );
    assert_eq!(empty_list_message(&state), "Loading route deliveries...");

    let generation = state.list_request_generation();
    state.receive_delivery_page(
        generation,
        DeliveryListPage::new(
            vec![item("a", None, None, None), item("b", None, None, None)],
            None,
        ),
    );
    state.start_stream();
    assert_eq!(
        header_line(&state),
        "meshh-tui v0.1.0 | connecting | 2 rows | row 1/2"
    );
    state.receive_stream_frames(Vec::new());
    state.select_next();
    assert_eq!(header_line(&state), "meshh-tui v0.1.0 | live | 2 rows | row 2/2");
}

#[test]
fn labels_follow_counts_and_statuses() {
    assert_eq!(rows_label(0), "0 rows");
    assert_eq!(rows_label(1), "1 row");
    assert_eq!(rows_label(12), "12 rows");
    assert_eq!(selection_text(None, 3), "no row");
    assert_eq!(selection_text(Some(2), 3), "row 3/3");
    assert_eq!(stream_activity(&StreamStatus::Disconnected), "offline");
    assert_eq!(footer_text(&Screen::DeliveryList), "up/down select | enter open | r refresh | q quit");
}

#[test]
fn empty_list_shows_the_stream_error_or_a_placeholder() {
    let mut state = AppState::default();
    let generation = state.list_request_generation();
    state.receive_delivery_page(generation, DeliveryListPage::new(Vec::new(), None));
    assert_eq!(empty_list_message(&state), "No route deliveries yet.");
    state.receive_stream_error(&ApiError::HttpStatus {
        operation: "streaming deliveries",
        status: 500,
        body: String::new(),
    });
    assert_eq!(
        empty_list_message(&state),
        "MESHH API returned HTTP 500 while streaming deliveries"
    );
    assert_eq!(
        header_line(&state),
        "meshh-tui v0.1.0 | reconnecting: API error | 0 rows | no row"
    );
}

#[test]
fn row_cells_fall_back_to_detection_time_and_dashes() {
    let cells = delivery_row_cells(&item("a", None, None, Some("2026-02-03T04:05:06Z")), 0);
    assert_eq!(cells, vec!["Feb 03 04:05", "-", "Headline", "queued"]);
    let cells = delivery_row_cells(&item("a", Some("GitHub"), None, None), 0);
    assert_eq!(cells, vec!["-", "GitHub", "Headline", "queued"]);
}

#[test]
fn detail_lines_list_every_field() {
    let routes = vec![
        MatchedRoute::new("Ops").unwrap(),
        MatchedRoute::new("Escalation").unwrap(),
    ];
    assert_eq!(routes_text(&routes), "Ops, Escalation");
    assert_eq!(routes_text(&[]), "-");
    let detail = DeliveryDetail::new(
        PublicDeliveryId::new("a").unwrap(),
        "Deploy complete",
        None,
        Some("Body text".to_owned()),
        None,
        None,
        DeliveryStatus::new("delivered").unwrap(),
        None,
        Some("2026-06-04 19:09".to_owned()),
        routes,
        None,
    )
    .unwrap();
    assert_eq!(
        detail_text(Some(&detail), 0),
        vec![
            "Deploy complete",
            "",
            "Status: delivered",
            "Published: Jun 04 19:09",
            "Source: -",
            "Source URL: -",
            "Matched routes: Ops, Escalation",
            "",
            "Body text",
        ]
    );
    assert_eq!(detail_text(None, 0), vec!["No delivery selected."]);
}
