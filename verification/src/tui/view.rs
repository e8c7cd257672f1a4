//! The text the terminal UI shows for an app state: header, list rows, detail and footer.
use vstd::prelude::*;

use crate::api::{DeliveryDetail, DeliveryListItem, MatchedRoute};
use crate::text::{concat2, decimal, decimal_text, texts_of};
use crate::update::PACKAGE_VERSION;

use super::state::{
    AppState, DeliveryListStatus, DetailStatus, Screen, StreamStatus, heading_text,
};
use super::time_display::{
    MAX_OFFSET_SECONDS, MIN_OFFSET_SECONDS, delivery_timestamp_text, format_delivery_timestamp_at,
};

verus! {

/// Title at the start of the header: the program name and version.
pub open spec fn title_text() -> Seq<char> {
    "meshh-tui v"@ + PACKAGE_VERSION@
}

/// Activity label for the live stream.
pub open spec fn stream_activity_text(status: StreamStatus) -> Seq<char> {
    match status {
        StreamStatus::Disconnected => "offline"@,
        StreamStatus::Connecting => "connecting"@,
        StreamStatus::Live => "live"@,
        StreamStatus::Reconnecting(e) => "reconnecting: "@ + heading_text(e.kind_value()),
        StreamStatus::Error(e) => heading_text(e.kind_value()),
    }
}

/// Activity label of the header: the list load state, else the stream's.
pub open spec fn header_activity_text(list: DeliveryListStatus, stream: StreamStatus) -> Seq<char> {
    match list {
        DeliveryListStatus::Loading => "loading"@,
        DeliveryListStatus::Error(e) => heading_text(e.kind_value()),
        DeliveryListStatus::Empty => stream_activity_text(stream),
        DeliveryListStatus::Ready => stream_activity_text(stream),
    }
}

/// Row count label: `1 row` or `N rows`.
pub open spec fn rows_text(count: nat) -> Seq<char> {
    if count == 1 {
        "1 row"@
    } else {
        decimal(count) + " rows"@
    }
}

/// Selection label: `row I/N` (one-based) when a row is selected in a non-empty list, else
/// `no row`.
pub open spec fn selection_label(selected: Option<usize>, count: nat) -> Seq<char> {
    match selected {
        Some(i) => if count > 0 {
            "row "@ + decimal((i + 1) as nat) + "/"@ + decimal(count)
        } else {
            "no row"@
        },
        None => "no row"@,
    }
}

/// The header line of a state.
pub open spec fn header_text(state: AppState) -> Seq<char> {
    title_text() + " | "@ + header_activity_text(state.list_status(), state.stream_status_v())
        + " | "@ + rows_text(state.rows().len()) + " | "@ + selection_label(
        state.selection(),
        state.rows().len(),
    )
}

/// Message shown in place of an empty delivery list.
pub open spec fn empty_message_text(list: DeliveryListStatus, stream: StreamStatus) -> Seq<char> {
    match list {
        DeliveryListStatus::Loading => "Loading route deliveries..."@,
        DeliveryListStatus::Error(e) => e.text(),
        _ => match stream {
            StreamStatus::Reconnecting(e) => e.text(),
            StreamStatus::Error(e) => e.text(),
            _ => "No route deliveries yet."@,
        },
    }
}

/// Cells of a list row: timestamp, source, headline, status.
pub open spec fn row_cells_text(item: DeliveryListItem, offset_seconds: i32) -> Seq<Seq<char>> {
    seq![
        delivery_timestamp_text(item.display_timestamp_text(), offset_seconds),
        or_dash(item.source_context_text()),
        item.headline_text(),
        item.status_text(),
    ]
}

/// An optional text, or `-` when absent.
pub open spec fn or_dash(t: Option<Seq<char>>) -> Seq<char> {
    match t {
        Some(s) => s,
        None => "-"@,
    }
}

/// Route names joined with `, `.
pub open spec fn joined_route_names(routes: Seq<MatchedRoute>) -> Seq<char>
    decreases routes.len(),
{
    if routes.len() == 0 {
        Seq::empty()
    } else if routes.len() == 1 {
        routes[0].text()
    } else {
        joined_route_names(routes.drop_last()) + ", "@ + routes.last().text()
    }
}

/// Matched routes label: `-` when none matched, else their names joined with `, `.
pub open spec fn routes_label(routes: Seq<MatchedRoute>) -> Seq<char> {
    if routes.len() == 0 {
        "-"@
    } else {
        joined_route_names(routes)
    }
}

/// The summary, else the body, else a placeholder.
pub open spec fn summary_or_body_text(detail: DeliveryDetail) -> Seq<char> {
    match detail.summary_text() {
        Some(s) => s,
        None => match detail.body_text() {
            Some(b) => b,
            None => "No summary provided."@,
        },
    }
}

/// Lines of the detail view of a delivery.
pub open spec fn detail_lines_text(detail: Option<DeliveryDetail>, offset_seconds: i32) -> Seq<
    Seq<char>,
> {
    match detail {
        None => seq!["No delivery selected."@],
        Some(d) => seq![
            d.headline_text(),
            Seq::empty(),
            "Status: "@ + d.status_text(),
            "Published: "@ + delivery_timestamp_text(d.display_timestamp_text(), offset_seconds),
            "Source: "@ + or_dash(d.source_context_text()),
            "Source URL: "@ + or_dash(d.source_url_text()),
            "Matched routes: "@ + routes_label(d.routes()),
            Seq::empty(),
            summary_or_body_text(d),
        ],
    }
}

/// Lines of the detail screen of a state.
pub open spec fn detail_screen_text(state: AppState, offset_seconds: i32) -> Seq<Seq<char>> {
    match state.detail_status_v() {
        DetailStatus::Hidden => seq!["No delivery selected."@],
        DetailStatus::Loading => seq!["Loading delivery detail..."@],
        DetailStatus::Error(e) => seq![heading_text(e.kind_value()), Seq::empty(), e.text()],
        DetailStatus::Ready => detail_lines_text(state.detail_v(), offset_seconds),
    }
}

/// Key help shown in the footer of a screen.
pub open spec fn footer_text_of(screen: Screen) -> Seq<char> {
    match screen {
        Screen::DeliveryList => "up/down select | enter open | r refresh | q quit"@,
        Screen::DeliveryDetail { .. } => "b back | r reload detail | q quit"@,
    }
}

/// Returns the header title.
pub fn title() -> (r: String)
    ensures
        r@ == title_text(),
{
    concat2("meshh-tui v", PACKAGE_VERSION)
}

/// Returns the activity label for a stream status.
pub fn stream_activity(status: &StreamStatus) -> (r: String)
    ensures
        r@ == stream_activity_text(*status),
{
    match status {
        StreamStatus::Disconnected => "offline".to_owned(),
        StreamStatus::Connecting => "connecting".to_owned(),
        StreamStatus::Live => "live".to_owned(),
        StreamStatus::Reconnecting(e) => concat2("reconnecting: ", e.heading()),
        StreamStatus::Error(e) => e.heading().to_owned(),
    }
}

/// Returns the activity label of the header.
pub fn header_activity(state: &AppState) -> (r: String)
    ensures
        r@ == header_activity_text(state.list_status(), state.stream_status_v()),
{
    match state.delivery_list_status() {
        DeliveryListStatus::Loading => "loading".to_owned(),
        DeliveryListStatus::Error(e) => e.heading().to_owned(),
        DeliveryListStatus::Empty => stream_activity(state.stream_status()),
        DeliveryListStatus::Ready => stream_activity(state.stream_status()),
    }
}

/// Returns the row count label.
pub fn rows_label(count: usize) -> (r: String)
    ensures
        r@ == rows_text(count as nat),
{
    if count == 1 {
        "1 row".to_owned()
    } else {
        let mut r = decimal_text(count as u64);
        r.append(" rows");
        r
    }
}

/// Returns the selection label of a list of `count` rows.
pub fn selection_text(selected: Option<usize>, count: usize) -> (r: String)
    requires
        selected matches Some(i) ==> i < count,
    ensures
        r@ == selection_label(selected, count as nat),
{
    match selected {
        Some(i) => {
            if count > 0 {
                let mut r = concat2("row ", decimal_text((i as u64) + 1).as_str());
                r.append("/");
                r.append(decimal_text(count as u64).as_str());
                r
            } else {
                "no row".to_owned()
            }
        },
        None => "no row".to_owned(),
    }
}

/// Returns the header line of a state.
pub fn header_line(state: &AppState) -> (r: String)
    requires
        state.wf(),
    ensures
        r@ == header_text(*state),
{
    proof {
        state.lemma_selection_in_rows();
    }
    let mut r = title();
    r.append(" | ");
    r.append(header_activity(state).as_str());
    r.append(" | ");
    r.append(rows_label(state.deliveries().len()).as_str());
    r.append(" | ");
    r.append(selection_text(state.selected_index(), state.deliveries().len()).as_str());
    r
}

/// Returns the message shown in place of an empty delivery list.
pub fn empty_list_message(state: &AppState) -> (r: &str)
    ensures
        r@ == empty_message_text(state.list_status(), state.stream_status_v()),
{
    match state.delivery_list_status() {
        DeliveryListStatus::Loading => "Loading route deliveries...",
        DeliveryListStatus::Error(e) => e.message(),
        _ => match state.stream_status() {
            StreamStatus::Reconnecting(e) => e.message(),
            StreamStatus::Error(e) => e.message(),
            _ => "No route deliveries yet.",
        },
    }
}

fn or_dash_text(t: Option<&str>) -> (r: String)
    ensures
        r@ == or_dash(crate::text::opt_str_text(t)),
{
    match t {
        Some(s) => s.to_owned(),
        None => "-".to_owned(),
    }
}

/// Column headings of the delivery list, one for each cell of a row.
pub open spec fn list_headings_text() -> Seq<Seq<char>> {
    seq!["Published"@, "Source"@, "Headline"@, "Status"@]
}

/// Returns the column headings of the delivery list.
pub fn list_headings() -> (r: Vec<&'static str>)
    ensures
        r@.len() == 4,
        forall|i: int| 0 <= i < 4 ==> #[trigger] r@[i]@ == list_headings_text()[i],
{
    vec!["Published", "Source", "Headline", "Status"]
}

/// Returns the cells of a list row at a UTC offset.
pub fn delivery_row_cells(item: &DeliveryListItem, offset_seconds: i32) -> (r: Vec<String>)
    requires
        MIN_OFFSET_SECONDS <= offset_seconds <= MAX_OFFSET_SECONDS,
    ensures
        texts_of(r@) == row_cells_text(*item, offset_seconds),
{
    let mut r: Vec<String> = Vec::new();
    r.push(format_delivery_timestamp_at(item.display_timestamp(), offset_seconds));
    r.push(or_dash_text(item.source_context()));
    r.push(item.headline().to_owned());
    r.push(item.status().as_str().to_owned());
    assert(texts_of(r@) =~= row_cells_text(*item, offset_seconds));
    r
}

/// Returns the matched routes label.
pub fn routes_text(routes: &[MatchedRoute]) -> (r: String)
    ensures
        r@ == routes_label(routes@),
{
    if routes.len() == 0 {
        return "-".to_owned();
    }
    let mut r = routes[0].name().to_owned();
    let mut i: usize = 1;
    assert(routes@.take(1).drop_last() =~= Seq::<MatchedRoute>::empty());
    while i < routes.len()
        invariant
            1 <= i <= routes.len(),
            r@ == joined_route_names(routes@.take(i as int)),
        decreases routes.len() - i,
    {
        proof {
            assert(routes@.take(i + 1).drop_last() =~= routes@.take(i as int));
        }
        r.append(", ");
        r.append(routes[i].name());
        i = i + 1;
    }
    assert(routes@.take(routes@.len() as int) =~= routes@);
    r
}

fn summary_or_body(detail: &DeliveryDetail) -> (r: String)
    ensures
        r@ == summary_or_body_text(*detail),
{
    match detail.summary() {
        Some(s) => s.to_owned(),
        None => match detail.body() {
            Some(b) => b.to_owned(),
            None => "No summary provided.".to_owned(),
        },
    }
}

/// Returns the lines of the detail view of a delivery at a UTC offset.
pub fn detail_text(detail: Option<&DeliveryDetail>, offset_seconds: i32) -> (r: Vec<String>)
    requires
        MIN_OFFSET_SECONDS <= offset_seconds <= MAX_OFFSET_SECONDS,
    ensures
        texts_of(r@) == detail_lines_text(
            match detail {
                Some(d) => Some(*d),
                None => None,
            },
            offset_seconds,
        ),
{
    let mut r: Vec<String> = Vec::new();
    match detail {
        None => {
            r.push("No delivery selected.".to_owned());
            assert(texts_of(r@) =~= seq!["No delivery selected."@]);
        },
        Some(d) => {
            r.push(d.headline().to_owned());
            r.push(String::new());
            r.push(concat2("Status: ", d.status().as_str()));
            r.push(
                concat2(
                    "Published: ",
                    format_delivery_timestamp_at(d.display_timestamp(), offset_seconds).as_str(),
                ),
            );
            r.push(concat2("Source: ", or_dash_text(d.source_context()).as_str()));
            r.push(concat2("Source URL: ", or_dash_text(d.source_url()).as_str()));
            r.push(concat2("Matched routes: ", routes_text(d.matched_routes()).as_str()));
            r.push(String::new());
            r.push(summary_or_body(d));
            assert(texts_of(r@) =~= detail_lines_text(Some(*d), offset_seconds));
        },
    }
    r
}

/// Returns the lines of the detail screen of a state at a UTC offset.
pub fn detail_screen_lines(state: &AppState, offset_seconds: i32) -> (r: Vec<String>)
    requires
        MIN_OFFSET_SECONDS <= offset_seconds <= MAX_OFFSET_SECONDS,
    ensures
        texts_of(r@) == detail_screen_text(*state, offset_seconds),
{
    match state.detail_status() {
        DetailStatus::Hidden => {
            let r = vec!["No delivery selected.".to_owned()];
            assert(texts_of(r@) =~= seq!["No delivery selected."@]);
            r
        },
        DetailStatus::Loading => {
            let r = vec!["Loading delivery detail...".to_owned()];
            assert(texts_of(r@) =~= seq!["Loading delivery detail..."@]);
            r
        },
        DetailStatus::Error(e) => {
            let r = vec![e.heading().to_owned(), String::new(), e.message().to_owned()];
            assert(texts_of(r@) =~= seq![heading_text(e.kind_value()), Seq::empty(), e.text()]);
            r
        },
        DetailStatus::Ready => detail_text(state.detail(), offset_seconds),
    }
}

/// Returns the key help of a screen.
pub fn footer_text(screen: &Screen) -> (r: &'static str)
    ensures
        r@ == footer_text_of(*screen),
{
    match screen {
        Screen::DeliveryList => "up/down select | enter open | r refresh | q quit",
        Screen::DeliveryDetail { .. } => "b back | r reload detail | q quit",
    }
}

} // verus!
