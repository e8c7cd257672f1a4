//! Testable application state for the terminal UI and the reducer that updates it.
use vstd::prelude::*;

use crate::api::{
    ApiError, DeliveryDetail, DeliveryListItem, DeliveryListPage, DeliveryStreamFrame,
    PublicDeliveryId, StreamCursor, api_error_text,
};
use crate::update::UpdateNotice;

use super::rows::{insert_all, insert_or_replace, insert_step, lemma_insert_step_fits, selection_fits};
use super::stream_session::{
    DeliveryStreamSession, SessionModel, accept_spec, first_row_cursor, row_cursor_texts,
};

verus! {

/// High-level screen currently shown by the TUI.
#[derive(Debug, PartialEq, Eq)]
pub enum Screen {
    DeliveryList,
    DeliveryDetail { public_delivery_id: PublicDeliveryId },
}

/// Whether a screen is the detail screen of the delivery with ID text `id`.
pub open spec fn shows_detail_of(screen: Screen, id: Seq<char>) -> bool {
    screen matches Screen::DeliveryDetail { public_delivery_id } && public_delivery_id.text() == id
}

/// Delivery list state visible to the user.
#[derive(Debug, PartialEq, Eq)]
pub enum DeliveryListStatus {
    Loading,
    Ready,
    Empty,
    Error(AppError),
}

/// Detail panel state visible to the user.
#[derive(Debug, PartialEq, Eq)]
pub enum DetailStatus {
    Hidden,
    Loading,
    Ready,
    Error(AppError),
}

/// Live delivery stream state visible to the user.
#[derive(Debug, PartialEq, Eq)]
pub enum StreamStatus {
    Disconnected,
    Connecting,
    Live,
    Reconnecting(AppError),
    Error(AppError),
}

/// User-visible error category.
#[derive(Debug, Clone, Copy, PartialEq, Eq)]
pub enum AppErrorKind {
    Authentication,
    Network,
    Api,
}

/// Category of an API error: rejected credentials, an unreachable service, or anything else.
pub open spec fn error_kind_of(error: ApiError) -> AppErrorKind {
    match error {
        ApiError::Authentication { .. } => AppErrorKind::Authentication,
        ApiError::Transport { .. } => AppErrorKind::Network,
        ApiError::HttpStatus { .. } => AppErrorKind::Api,
        ApiError::InvalidResponse { .. } => AppErrorKind::Api,
    }
}

/// Heading shown above an error of a category.
pub open spec fn heading_text(kind: AppErrorKind) -> Seq<char> {
    match kind {
        AppErrorKind::Authentication => "Authentication error"@,
        AppErrorKind::Network => "Network error"@,
        AppErrorKind::Api => "API error"@,
    }
}

/// User-visible error message retained in app state.
#[derive(Debug, PartialEq, Eq)]
pub struct AppError {
    kind: AppErrorKind,
    message: String,
}

impl AppError {
    /// Category of the error.
    pub closed spec fn kind_value(&self) -> AppErrorKind {
        self.kind
    }

    /// Message text of the error.
    pub closed spec fn text(&self) -> Seq<char> {
        self.message@
    }

    /// The error shows the category and the description of an API error.
    pub open spec fn describes(&self, error: ApiError) -> bool {
        self.kind_value() == error_kind_of(error) && self.text() == api_error_text(error)
    }

    /// Creates a user-visible error.
    pub fn new(kind: AppErrorKind, message: &str) -> (r: Self)
        ensures
            r.kind_value() == kind,
            r.text() == message@,
    {
        AppError { kind, message: message.to_owned() }
    }

    /// Converts an API error into a visible TUI error.
    pub fn from_api_error(error: &ApiError) -> (r: Self)
        ensures
            r.describes(*error),
    {
        let kind = match error {
            ApiError::Authentication { .. } => AppErrorKind::Authentication,
            ApiError::Transport { .. } => AppErrorKind::Network,
            ApiError::HttpStatus { .. } => AppErrorKind::Api,
            ApiError::InvalidResponse { .. } => AppErrorKind::Api,
        };
        AppError { kind, message: error.message() }
    }

    /// Returns the error category.
    pub fn kind(&self) -> (r: AppErrorKind)
        ensures
            r == self.kind_value(),
    {
        self.kind
    }

    /// Returns the displayable error message.
    pub fn message(&self) -> (r: &str)
        ensures
            r@ == self.text(),
    {
        self.message.as_str()
    }

    /// Returns the heading shown above the error.
    pub fn heading(&self) -> (r: &'static str)
        ensures
            r@ == heading_text(self.kind_value()),
    {
        match self.kind {
            AppErrorKind::Authentication => "Authentication error",
            AppErrorKind::Network => "Network error",
            AppErrorKind::Api => "API error",
        }
    }
}

/// Keyboard action understood by the app state reducer.
#[derive(Debug, Clone, Copy, PartialEq, Eq)]
pub enum KeyAction {
    Up,
    Down,
    Open,
    Back,
    Refresh,
    Quit,
}

/// Side effect requested by the app state reducer.
#[derive(Debug, PartialEq, Eq)]
pub enum AppCommand {
    Nothing,
    LoadDeliveries { generation: u64 },
    LoadDetail { public_delivery_id: PublicDeliveryId, generation: u64 },
    Quit,
}

/// A request generation after one more request: one higher, stopping at the maximum.
pub open spec fn bumped(g: u64) -> u64 {
    if g < u64::MAX {
        (g + 1) as u64
    } else {
        g
    }
}

/// Stream session after an initial list page: the page's cursors become seen, and the
/// page's first cursor becomes the resume cursor when none is set.
pub open spec fn tracked_page(m: SessionModel, rows: Seq<DeliveryListItem>) -> SessionModel {
    SessionModel {
        resume: match m.resume {
            Some(r) => Some(r),
            None => first_row_cursor(rows),
        },
        seen: m.seen.union(row_cursor_texts(rows)),
    }
}

/// Selection after moving one row up.
pub open spec fn selected_previous(selected: Option<usize>) -> Option<usize> {
    match selected {
        Some(i) => Some(if i > 0 {
            (i - 1) as usize
        } else {
            0usize
        }),
        None => None,
    }
}

/// Selection after moving one row down in a list of `len` rows.
pub open spec fn selected_next(selected: Option<usize>, len: nat) -> Option<usize> {
    match selected {
        Some(i) => Some(if i + 1 < len {
            (i + 1) as usize
        } else if len > 0 {
            (len - 1) as usize
        } else {
            0usize
        }),
        None => None,
    }
}

/// A delivery list response was applied: one for an older request than the newest changes
/// nothing; one for the newest replaces the rows, selects the first row, tracks the page's
/// cursors and marks the list ready or empty, leaving the rest as it was.
pub open spec fn page_applied(
    before: AppState,
    after: AppState,
    generation: u64,
    page: DeliveryListPage,
) -> bool {
    &&& generation != before.list_gen() ==> after == before
    &&& generation == before.list_gen() ==> {
        &&& after.rows() == page.items_seq()
        &&& after.selection() == if page.items_seq().len() == 0 {
            None
        } else {
            Some(0usize)
        }
        &&& after.next_cursor_v() == page.next_cursor_value()
        &&& after.session() == tracked_page(before.session(), page.items_seq())
        &&& after.list_status() == if page.items_seq().len() == 0 {
            DeliveryListStatus::Empty
        } else {
            DeliveryListStatus::Ready
        }
        &&& after.list_gen() == before.list_gen()
        &&& after.same_detail(&before)
        &&& after.stream_status_v() == before.stream_status_v()
        &&& after.notice() == before.notice()
    }
}

/// A failed delivery list response was applied: one for an older request changes nothing;
/// one for the newest shows the error and keeps the loaded rows.
pub open spec fn list_error_applied(
    before: AppState,
    after: AppState,
    generation: u64,
    error: ApiError,
) -> bool {
    &&& generation != before.list_gen() ==> after == before
    &&& generation == before.list_gen() ==> {
        &&& after.list_status() matches DeliveryListStatus::Error(e) && e.describes(error)
        &&& after.same_list(&before)
        &&& after.same_detail(&before)
        &&& after.stream_status_v() == before.stream_status_v()
        &&& after.notice() == before.notice()
    }
}

/// Stream frames were applied: new deliveries went to the top of the list (replacing any
/// older row with the same ID), replayed cursors were suppressed, and the stream is live.
pub open spec fn frames_applied(
    before: AppState,
    after: AppState,
    frames: Seq<DeliveryStreamFrame>,
) -> bool {
    let accepted = accept_spec(before.session(), frames);
    let inserted = insert_all(before.rows(), before.selection(), accepted.1);
    &&& after.session() == accepted.0
    &&& after.rows() == inserted.0
    &&& after.selection() == inserted.1
    &&& after.list_status() == if accepted.1.len() > 0 {
        DeliveryListStatus::Ready
    } else {
        before.list_status()
    }
    &&& after.stream_status_v() == StreamStatus::Live
    &&& after.next_cursor_v() == before.next_cursor_v()
    &&& after.list_gen() == before.list_gen()
    &&& after.same_detail(&before)
    &&& after.notice() == before.notice()
}

/// A stream error was applied while keeping the loaded list visible: an authentication error
/// stops the stream, any other error is retried.
pub open spec fn stream_error_applied(before: AppState, after: AppState, error: ApiError) -> bool {
    &&& error_kind_of(error) == AppErrorKind::Authentication ==> (after.stream_status_v() matches StreamStatus::Error(e) && e.describes(error))
    &&& error_kind_of(error) != AppErrorKind::Authentication ==> (after.stream_status_v() matches StreamStatus::Reconnecting(e) && e.describes(error))
    &&& after.same_list(&before)
    &&& after.same_detail(&before)
    &&& after.list_status() == before.list_status()
    &&& after.notice() == before.notice()
}

/// A detail response was applied: unless the user has since left that detail screen or
/// requested it again (then nothing changes), the detail is shown.
pub open spec fn detail_applied(
    before: AppState,
    after: AppState,
    generation: u64,
    detail: DeliveryDetail,
) -> bool {
    &&& !before.detail_request_is_current(generation, detail.id_text()) ==> after == before
    &&& before.detail_request_is_current(generation, detail.id_text()) ==> {
        &&& shows_detail_of(after.screen_v(), detail.id_text())
        &&& after.detail_status_v() == DetailStatus::Ready
        &&& after.detail_v() == Some(detail)
        &&& after.detail_gen() == before.detail_gen()
        &&& after.same_list(&before)
        &&& after.same_statuses(&before)
    }
}

/// A failed detail response was applied: one for an older request changes nothing; one for
/// the newest shows the error on the detail screen.
pub open spec fn detail_error_applied(
    before: AppState,
    after: AppState,
    generation: u64,
    error: ApiError,
) -> bool {
    &&& generation != before.detail_gen() ==> after == before
    &&& generation == before.detail_gen() ==> {
        &&& after.detail_status_v() matches DetailStatus::Error(e) && e.describes(error)
        &&& after.screen_v() == before.screen_v()
        &&& after.detail_v() == before.detail_v()
        &&& after.detail_gen() == before.detail_gen()
        &&& after.same_list(&before)
        &&& after.same_statuses(&before)
    }
}

/// The update notice was replaced; everything else is as it was.
pub open spec fn notice_applied(
    before: AppState,
    after: AppState,
    notice: Option<UpdateNotice>,
) -> bool {
    &&& after.notice() == notice
    &&& after.same_list(&before)
    &&& after.same_detail(&before)
    &&& after.list_status() == before.list_status()
    &&& after.stream_status_v() == before.stream_status_v()
}

/// The list is loading again: the list screen is shown, the detail is hidden, and both request
/// generations move on (pending results become stale); the rows and the stream are kept.
pub open spec fn loading_started(before: AppState, after: AppState) -> bool {
    &&& after.screen_v() == Screen::DeliveryList
    &&& after.list_status() == DeliveryListStatus::Loading
    &&& after.detail_status_v() == DetailStatus::Hidden
    &&& after.detail_v() is None
    &&& after.list_gen() == bumped(before.list_gen())
    &&& after.detail_gen() == bumped(before.detail_gen())
    &&& after.rows() == before.rows()
    &&& after.selection() == before.selection()
    &&& after.next_cursor_v() == before.next_cursor_v()
    &&& after.session() == before.session()
    &&& after.stream_status_v() == before.stream_status_v()
    &&& after.notice() == before.notice()
}

/// The stream is connecting; everything else is as it was.
pub open spec fn stream_started(before: AppState, after: AppState) -> bool {
    &&& after.stream_status_v() == StreamStatus::Connecting
    &&& after.same_list(&before)
    &&& after.same_detail(&before)
    &&& after.list_status() == before.list_status()
    &&& after.notice() == before.notice()
}

/// The selection moved one row up; everything else is as it was.
pub open spec fn moved_up(before: AppState, after: AppState) -> bool {
    &&& after.selection() == selected_previous(before.selection())
    &&& after.rows() == before.rows()
    &&& after.next_cursor_v() == before.next_cursor_v()
    &&& after.session() == before.session()
    &&& after.list_gen() == before.list_gen()
    &&& after.same_detail(&before)
    &&& after.same_statuses(&before)
}

/// The selection moved one row down, stopping at the last row; everything else is as it was.
pub open spec fn moved_down(before: AppState, after: AppState) -> bool {
    &&& after.selection() == selected_next(before.selection(), before.rows().len())
    &&& after.rows() == before.rows()
    &&& after.next_cursor_v() == before.next_cursor_v()
    &&& after.session() == before.session()
    &&& after.list_gen() == before.list_gen()
    &&& after.same_detail(&before)
    &&& after.same_statuses(&before)
}

/// The detail screen of the selected row was opened and `r` is the ID to load; with no
/// selected row nothing changed and `r` is none.
pub open spec fn detail_opened(
    before: AppState,
    after: AppState,
    r: Option<PublicDeliveryId>,
) -> bool {
    &&& before.selection() is None ==> r is None && after == before
    &&& before.selection() matches Some(i) ==> {
        &&& r matches Some(id) && id.text() == before.rows()[i as int].id_text()
        &&& shows_detail_of(after.screen_v(), before.rows()[i as int].id_text())
        &&& after.detail_status_v() == DetailStatus::Loading
        &&& after.detail_v() is None
        &&& after.detail_gen() == bumped(before.detail_gen())
        &&& after.same_list(&before)
        &&& after.same_statuses(&before)
    }
}

/// The detail screen was left for the list; a pending detail result became stale.
pub open spec fn detail_closed(before: AppState, after: AppState) -> bool {
    &&& after.screen_v() == Screen::DeliveryList
    &&& after.detail_status_v() == DetailStatus::Hidden
    &&& after.detail_v() is None
    &&& after.detail_gen() == bumped(before.detail_gen())
    &&& after.same_list(&before)
    &&& after.same_statuses(&before)
}

/// A key was handled and `r` is the command to perform. Quit asks to quit. Up and Down move
/// the selection on the list screen and change nothing on the detail screen. Open opens the
/// selected row on the list screen and asks to load it (with no selected row, or on the detail
/// screen, nothing changes). Back leaves the detail screen (on the list screen nothing
/// changes). Refresh reloads the list on the list screen, or the shown detail on the detail
/// screen.
pub open spec fn key_applied(before: AppState, after: AppState, action: KeyAction, r: AppCommand) -> bool {
    match action {
        KeyAction::Quit => r == AppCommand::Quit && after == before,
        KeyAction::Up => r == AppCommand::Nothing && if before.screen_v() is DeliveryList {
            moved_up(before, after)
        } else {
            after == before
        },
        KeyAction::Down => r == AppCommand::Nothing && if before.screen_v() is DeliveryList {
            moved_down(before, after)
        } else {
            after == before
        },
        KeyAction::Open => if before.screen_v() is DeliveryList && before.selection() is Some {
            let i = before.selection()->0;
            &&& r matches AppCommand::LoadDetail { public_delivery_id, generation }
                && public_delivery_id.text() == before.rows()[i as int].id_text()
                && generation == after.detail_gen()
            &&& detail_opened(before, after, Some(r->public_delivery_id))
        } else {
            r == AppCommand::Nothing && after == before
        },
        KeyAction::Back => r == AppCommand::Nothing && if before.screen_v() is DeliveryDetail {
            detail_closed(before, after)
        } else {
            after == before
        },
        KeyAction::Refresh => if before.screen_v() is DeliveryList {
            &&& r == AppCommand::LoadDeliveries { generation: after.list_gen() }
            &&& loading_started(before, after)
        } else {
            let id = before.screen_v()->public_delivery_id;
            &&& r matches AppCommand::LoadDetail { public_delivery_id, generation }
                && public_delivery_id.text() == id.text() && generation == after.detail_gen()
            &&& after.screen_v() == before.screen_v()
            &&& after.detail_status_v() == DetailStatus::Loading
            &&& after.detail_v() is None
            &&& after.detail_gen() == bumped(before.detail_gen())
            &&& after.same_list(&before)
            &&& after.same_statuses(&before)
        },
    }
}

/// Errors fall into categories by where they come from: only rejected credentials are an
/// authentication error, only a failed transport is a network error, and an HTTP status or an
/// invalid response is an API error.
pub proof fn law_error_categories(error: ApiError)
    ensures
        error_kind_of(error) == AppErrorKind::Authentication <==> error is Authentication,
        error_kind_of(error) == AppErrorKind::Network <==> error is Transport,
        error_kind_of(error) == AppErrorKind::Api <==> (error is HttpStatus || error is InvalidResponse),
{
}

/// Each category has its own heading, naming the category: `Authentication error`,
/// `Network error` and `API error`.
pub proof fn law_error_headings(a: AppErrorKind, b: AppErrorKind)
    ensures
        heading_text(AppErrorKind::Authentication) == "Authentication error"@,
        heading_text(AppErrorKind::Network) == "Network error"@,
        heading_text(AppErrorKind::Api) == "API error"@,
        a != b ==> heading_text(a) != heading_text(b),
{
    reveal_strlit("Authentication error");
    reveal_strlit("Network error");
    reveal_strlit("API error");
    if a != b && heading_text(a) == heading_text(b) {
        assert(heading_text(a)[0] == heading_text(b)[0]);
        assert(heading_text(a).len() == heading_text(b).len());
    }
}

/// A stream error stops the stream only when credentials were rejected; every other error
/// leaves it reconnecting. The error shown carries the error's category and description.
pub proof fn law_only_rejected_credentials_stop_the_stream(
    before: AppState,
    after: AppState,
    error: ApiError,
)
    requires
        stream_error_applied(before, after, error),
    ensures
        after.stream_status_v() is Error <==> error is Authentication,
        after.stream_status_v() is Reconnecting <==> !(error is Authentication),
        after.stream_status_v() matches StreamStatus::Error(e) ==> e.kind_value()
            == AppErrorKind::Authentication && e.text() == api_error_text(error),
        after.stream_status_v() matches StreamStatus::Reconnecting(e) ==> e.text() == api_error_text(
            error,
        ) && (error is Transport ==> e.kind_value() == AppErrorKind::Network) && (
        error is HttpStatus || error is InvalidResponse ==> e.kind_value() == AppErrorKind::Api),
{
}

/// Moving down and then up returns to the row that was selected, unless it was the last row;
/// moving up and then down returns to it, unless it was the first.
pub proof fn law_down_then_up_returns(i: usize, len: nat)
    requires
        i < len,
        len <= usize::MAX,
    ensures
        i + 1 < len ==> selected_previous(selected_next(Some(i), len)) == Some(i),
        i > 0 ==> selected_next(selected_previous(Some(i)), len) == Some(i),
{
}

/// Once the list is reloaded, a result for the earlier request changes nothing: the new
/// request has a newer generation (while generations remain), and results of other
/// generations are ignored.
pub proof fn law_reload_makes_earlier_list_results_stale(
    earlier: AppState,
    reloaded: AppState,
    after: AppState,
    page: DeliveryListPage,
)
    requires
        reloaded.list_gen() == bumped(earlier.list_gen()),
        earlier.list_gen() < u64::MAX,
        page_applied(reloaded, after, earlier.list_gen(), page),
    ensures
        after == reloaded,
{
}

/// Once the detail screen is left, no detail result changes the state, whatever its
/// generation and delivery.
pub proof fn law_closed_detail_ignores_results(
    closed: AppState,
    after: AppState,
    generation: u64,
    detail: DeliveryDetail,
)
    requires
        closed.screen_v() == Screen::DeliveryList,
        detail_applied(closed, after, generation, detail),
    ensures
        after == closed,
{
}

/// A call of one of the state's methods, with its arguments: the steps of a run of the state.
pub enum AppCall {
    ReceiveUpdateNotice(Option<UpdateNotice>),
    StartLoading,
    ReceiveDeliveryPage(u64, DeliveryListPage),
    ReceiveListError(u64, ApiError),
    StartStream,
    ReceiveStreamFrames(Vec<DeliveryStreamFrame>),
    ReceiveStreamError(ApiError),
    SelectPrevious,
    SelectNext,
    OpenSelectedDetail,
    ReceiveDetail(u64, DeliveryDetail),
    ReceiveDetailError(u64, ApiError),
    CloseDetail,
    HandleKeyAction(KeyAction),
}

/// `after` is what the method of `call` ensures of the state it is called on in `before`, as
/// its contract states it (whatever it returned).
pub open spec fn call_applied(before: AppState, after: AppState, call: AppCall) -> bool {
    match call {
        AppCall::ReceiveUpdateNotice(notice) => notice_applied(before, after, notice),
        AppCall::StartLoading => loading_started(before, after),
        AppCall::ReceiveDeliveryPage(generation, page) => page_applied(
            before,
            after,
            generation,
            page,
        ),
        AppCall::ReceiveListError(generation, error) => list_error_applied(
            before,
            after,
            generation,
            error,
        ),
        AppCall::StartStream => stream_started(before, after),
        AppCall::ReceiveStreamFrames(frames) => frames_applied(before, after, frames@),
        AppCall::ReceiveStreamError(error) => stream_error_applied(before, after, error),
        AppCall::SelectPrevious => moved_up(before, after),
        AppCall::SelectNext => moved_down(before, after),
        AppCall::OpenSelectedDetail => exists|r: Option<PublicDeliveryId>|
            #[trigger] detail_opened(before, after, r),
        AppCall::ReceiveDetail(generation, detail) => detail_applied(
            before,
            after,
            generation,
            detail,
        ),
        AppCall::ReceiveDetailError(generation, error) => detail_error_applied(
            before,
            after,
            generation,
            error,
        ),
        AppCall::CloseDetail => detail_closed(before, after),
        AppCall::HandleKeyAction(action) => exists|r: AppCommand|
            #[trigger] key_applied(before, after, action, r),
    }
}

/// A run of method calls: `states[i + 1]` is the state after `calls[i]` was made on
/// `states[i]`.
pub open spec fn calls_applied(states: Seq<AppState>, calls: Seq<AppCall>) -> bool {
    &&& states.len() == calls.len() + 1
    &&& forall|i: int|
        #![trigger calls[i]]
        0 <= i < calls.len() ==> call_applied(states[i], states[i + 1], calls[i])
}

/// Every method but `receive_update_notice` keeps the update notice.
pub proof fn law_other_calls_keep_the_notice(before: AppState, after: AppState, call: AppCall)
    requires
        call_applied(before, after, call),
        !(call is ReceiveUpdateNotice),
    ensures
        after.notice() == before.notice(),
{
    match call {
        AppCall::OpenSelectedDetail => {
            let r = choose|r: Option<PublicDeliveryId>| #[trigger] detail_opened(before, after, r);
            assert(detail_opened(before, after, r));
        },
        AppCall::HandleKeyAction(action) => {
            let r = choose|r: AppCommand| #[trigger] key_applied(before, after, action, r);
            assert(key_applied(before, after, action, r));
        },
        _ => {},
    }
}

/// Only `receive_update_notice` changes the update notice: after `receive_update_notice(n)`,
/// any run of calls of the other methods leaves `n` in place.
pub proof fn law_notice_survives_other_calls(
    states: Seq<AppState>,
    calls: Seq<AppCall>,
    notice: Option<UpdateNotice>,
)
    requires
        calls_applied(states, calls),
        calls.len() > 0,
        calls[0] == AppCall::ReceiveUpdateNotice(notice),
        forall|i: int| 0 < i < calls.len() ==> !(#[trigger] calls[i] is ReceiveUpdateNotice),
    ensures
        forall|i: int| 1 <= i < states.len() ==> #[trigger] states[i].notice() == notice,
{
    assert forall|i: int| 1 <= i < states.len() implies #[trigger] states[i].notice() == notice by {
        lemma_notice_kept_up_to(states, calls, notice, i);
    }
}

proof fn lemma_notice_kept_up_to(
    states: Seq<AppState>,
    calls: Seq<AppCall>,
    notice: Option<UpdateNotice>,
    k: int,
)
    requires
        calls_applied(states, calls),
        calls.len() > 0,
        calls[0] == AppCall::ReceiveUpdateNotice(notice),
        forall|i: int| 0 < i < calls.len() ==> !(#[trigger] calls[i] is ReceiveUpdateNotice),
        1 <= k < states.len(),
    ensures
        states[k].notice() == notice,
    decreases k,
{
    let j = k - 1;
    assert(call_applied(states[j], states[j + 1], calls[j]));
    if k > 1 {
        lemma_notice_kept_up_to(states, calls, notice, j);
        law_other_calls_keep_the_notice(states[j], states[k], calls[j]);
    }
}

/// Selection clamped to a list of `len` rows: none for an empty list, the last row for an
/// index past the end, and otherwise unchanged.
pub open spec fn clamped_selection(len: nat, selected: Option<usize>) -> Option<usize> {
    if len == 0 {
        None
    } else {
        match selected {
            Some(i) => if i >= len {
                Some((len - 1) as usize)
            } else {
                Some(i)
            },
            None => None,
        }
    }
}

/// The detail status matches the screen: hidden detail goes with the list screen, a detail
/// that is loading or loaded goes with the detail screen, and a loaded detail is the record
/// of the delivery that screen shows.
pub open spec fn detail_fits_screen(
    screen: Screen,
    status: DetailStatus,
    detail: Option<DeliveryDetail>,
) -> bool {
    &&& status == DetailStatus::Hidden ==> screen == Screen::DeliveryList
    &&& status == DetailStatus::Loading ==> screen is DeliveryDetail
    &&& status == DetailStatus::Ready ==> (detail matches Some(d) && shows_detail_of(
        screen,
        d.id_text(),
    ))
}

/// Testable application state for the terminal UI.
#[derive(Debug, PartialEq, Eq)]
pub struct AppState {
    screen: Screen,
    delivery_list_status: DeliveryListStatus,
    stream_status: StreamStatus,
    deliveries: Vec<DeliveryListItem>,
    selected_index: Option<usize>,
    next_cursor: Option<StreamCursor>,
    stream_session: DeliveryStreamSession,
    detail_status: DetailStatus,
    detail: Option<DeliveryDetail>,
    update_notice: Option<UpdateNotice>,
    list_request_generation: u64,
    detail_request_generation: u64,
}

impl AppState {
    /// Active screen.
    pub closed spec fn screen_v(&self) -> Screen {
        self.screen
    }

    /// Delivery list status.
    pub closed spec fn list_status(&self) -> DeliveryListStatus {
        self.delivery_list_status
    }

    /// Live stream status.
    pub closed spec fn stream_status_v(&self) -> StreamStatus {
        self.stream_status
    }

    /// Loaded delivery rows.
    pub closed spec fn rows(&self) -> Seq<DeliveryListItem> {
        self.deliveries@
    }

    /// Selected row index.
    pub closed spec fn selection(&self) -> Option<usize> {
        self.selected_index
    }

    /// History cursor from the last list response.
    pub closed spec fn next_cursor_v(&self) -> Option<StreamCursor> {
        self.next_cursor
    }

    /// Stream session state.
    pub closed spec fn session(&self) -> SessionModel {
        self.stream_session.model()
    }

    /// Detail status.
    pub closed spec fn detail_status_v(&self) -> DetailStatus {
        self.detail_status
    }

    /// Loaded detail record.
    pub closed spec fn detail_v(&self) -> Option<DeliveryDetail> {
        self.detail
    }

    /// Update notice.
    pub closed spec fn notice(&self) -> Option<UpdateNotice> {
        self.update_notice
    }

    /// Generation of the newest delivery list request.
    pub closed spec fn list_gen(&self) -> u64 {
        self.list_request_generation
    }

    /// Generation of the newest detail request.
    pub closed spec fn detail_gen(&self) -> u64 {
        self.detail_request_generation
    }

    /// The state is consistent: the selection fits the list, the stream session records no
    /// cursor twice, and the detail status matches the screen.
    pub closed spec fn wf(&self) -> bool {
        &&& selection_fits(self.deliveries@, self.selected_index)
        &&& self.stream_session.wf()
        &&& detail_fits_screen(self.screen, self.detail_status, self.detail)
    }

    /// In a consistent state the selection is a row of the list, and a row is selected exactly
    /// when the list is not empty.
    pub proof fn lemma_selection_in_rows(&self)
        requires
            self.wf(),
        ensures
            selection_fits(self.rows(), self.selection()),
    {
    }

    /// In every consistent state, and so in every state the methods reach from the default
    /// one, the detail status matches the screen (see `detail_fits_screen`).
    pub proof fn law_detail_status_matches_screen(&self)
        requires
            self.wf(),
        ensures
            detail_fits_screen(self.screen_v(), self.detail_status_v(), self.detail_v()),
    {
    }

    /// Two states agree on the list: rows, selection, history cursor and stream session.
    pub open spec fn same_list(&self, other: &AppState) -> bool {
        &&& self.rows() == other.rows()
        &&& self.selection() == other.selection()
        &&& self.next_cursor_v() == other.next_cursor_v()
        &&& self.session() == other.session()
        &&& self.list_gen() == other.list_gen()
    }

    /// Two states agree on the detail view: screen, detail status, record and generation.
    pub open spec fn same_detail(&self, other: &AppState) -> bool {
        &&& self.screen_v() == other.screen_v()
        &&& self.detail_status_v() == other.detail_status_v()
        &&& self.detail_v() == other.detail_v()
        &&& self.detail_gen() == other.detail_gen()
    }

    /// Two states agree on statuses and notice.
    pub open spec fn same_statuses(&self, other: &AppState) -> bool {
        &&& self.list_status() == other.list_status()
        &&& self.stream_status_v() == other.stream_status_v()
        &&& self.notice() == other.notice()
    }

    /// Whether a finished detail request is still the one the user is waiting for.
    pub open spec fn detail_request_is_current(&self, generation: u64, id: Seq<char>) -> bool {
        generation == self.detail_gen() && shows_detail_of(self.screen_v(), id)
    }

    /// Returns the active screen.
    pub fn screen(&self) -> (r: &Screen)
        ensures
            *r == self.screen_v(),
    {
        &self.screen
    }

    /// Returns the current delivery list status.
    pub fn delivery_list_status(&self) -> (r: &DeliveryListStatus)
        ensures
            *r == self.list_status(),
    {
        &self.delivery_list_status
    }

    /// Returns the live delivery stream status.
    pub fn stream_status(&self) -> (r: &StreamStatus)
        ensures
            *r == self.stream_status_v(),
    {
        &self.stream_status
    }

    /// Returns the visible detail status.
    pub fn detail_status(&self) -> (r: &DetailStatus)
        ensures
            *r == self.detail_status_v(),
    {
        &self.detail_status
    }

    /// Returns the loaded delivery rows.
    pub fn deliveries(&self) -> (r: &[DeliveryListItem])
        ensures
            r@ == self.rows(),
    {
        self.deliveries.as_slice()
    }

    /// Returns the selected row index.
    pub fn selected_index(&self) -> (r: Option<usize>)
        ensures
            r == self.selection(),
    {
        self.selected_index
    }

    /// Returns the selected row, when one is available.
    pub fn selected_delivery(&self) -> (r: Option<&DeliveryListItem>)
        requires
            self.wf(),
        ensures
            self.selection() matches Some(i) ==> r == Some(&self.rows()[i as int]),
            self.selection() is None ==> r is None,
    {
        match self.selected_index {
            Some(i) => Some(&self.deliveries[i]),
            None => None,
        }
    }

    /// Returns the next history cursor from the last list response.
    pub fn next_cursor(&self) -> (r: Option<&StreamCursor>)
        ensures
            r matches Some(c) ==> self.next_cursor_v() == Some(*c),
            r is None ==> self.next_cursor_v() is None,
    {
        match &self.next_cursor {
            Some(c) => Some(c),
            None => None,
        }
    }

    /// Returns the cursor that should be sent as the next stream `after` value.
    pub fn stream_resume_cursor(&self) -> (r: Option<&StreamCursor>)
        ensures
            r matches Some(c) ==> self.session().resume == Some(c.text()),
            r is None ==> self.session().resume is None,
    {
        self.stream_session.resume_cursor()
    }

    /// Returns the loaded detail record.
    pub fn detail(&self) -> (r: Option<&DeliveryDetail>)
        ensures
            r matches Some(d) ==> self.detail_v() == Some(*d),
            r is None ==> self.detail_v() is None,
    {
        match &self.detail {
            Some(d) => Some(d),
            None => None,
        }
    }

    /// Returns the available update notice, when one has been discovered.
    pub fn update_notice(&self) -> (r: Option<&UpdateNotice>)
        ensures
            r matches Some(n) ==> self.notice() == Some(*n),
            r is None ==> self.notice() is None,
    {
        match &self.update_notice {
            Some(n) => Some(n),
            None => None,
        }
    }

    /// Returns the generation of the newest delivery list request.
    pub fn list_request_generation(&self) -> (r: u64)
        ensures
            r == self.list_gen(),
    {
        self.list_request_generation
    }

    /// Returns the generation of the newest detail request.
    pub fn detail_request_generation(&self) -> (r: u64)
        ensures
            r == self.detail_gen(),
    {
        self.detail_request_generation
    }

    /// Applies the latest update notice from the background update check.
    pub fn receive_update_notice(&mut self, notice: Option<UpdateNotice>)
        requires
            old(self).wf(),
        ensures
            final(self).wf(),
            notice_applied(*old(self), *final(self), notice),
    {
        self.update_notice = notice;
    }

    /// Moves the delivery list into a loading state; pending list and detail results become
    /// stale.
    pub fn start_loading(&mut self)
        requires
            old(self).wf(),
        ensures
            final(self).wf(),
            loading_started(*old(self), *final(self)),
    {
        self.screen = Screen::DeliveryList;
        self.delivery_list_status = DeliveryListStatus::Loading;
        self.detail_status = DetailStatus::Hidden;
        self.detail = None;
        self.list_request_generation = self.list_request_generation.saturating_add(1);
        self.detail_request_generation = self.detail_request_generation.saturating_add(1);
    }

    /// Applies a successful delivery list response. A response to an older request than the
    /// newest one changes nothing.
    pub fn receive_delivery_page(&mut self, generation: u64, page: DeliveryListPage)
        requires
            old(self).wf(),
        ensures
            final(self).wf(),
            page_applied(*old(self), *final(self), generation, page),
    {
        if generation != self.list_request_generation {
            return;
        }
        let (items, next_cursor) = page.into_parts();
        self.deliveries = items;
        self.selected_index = if self.deliveries.len() == 0 {
            None
        } else {
            Some(0)
        };
        self.next_cursor = next_cursor;
        self.stream_session.track_page_cursors(self.deliveries.as_slice());
        self.delivery_list_status = if self.deliveries.len() == 0 {
            DeliveryListStatus::Empty
        } else {
            DeliveryListStatus::Ready
        };
    }

    /// Applies a failed delivery list response, keeping the loaded rows. A response to an
    /// older request than the newest one changes nothing.
    pub fn receive_list_error(&mut self, generation: u64, error: &ApiError)
        requires
            old(self).wf(),
        ensures
            final(self).wf(),
            list_error_applied(*old(self), *final(self), generation, *error),
    {
        if generation != self.list_request_generation {
            return;
        }
        self.delivery_list_status = DeliveryListStatus::Error(AppError::from_api_error(error));
        self.clamp_selection();
    }

    /// Moves the stream into a connecting state.
    pub fn start_stream(&mut self)
        requires
            old(self).wf(),
        ensures
            final(self).wf(),
            stream_started(*old(self), *final(self)),
    {
        self.stream_status = StreamStatus::Connecting;
    }

    /// Applies stream frames: new deliveries go to the top of the list (replacing any older
    /// row with the same ID), replayed cursors are suppressed, and the stream is live.
    pub fn receive_stream_frames(&mut self, frames: Vec<DeliveryStreamFrame>)
        requires
            old(self).wf(),
        ensures
            final(self).wf(),
            frames_applied(*old(self), *final(self), frames@),
    {
        let ghost rows0 = self.deliveries@;
        let ghost sel0 = self.selected_index;
        let deliveries = self.stream_session.accept_frames(frames);
        let ghost items = deliveries@;
        let ghost snapshot = *self;
        let inserted_delivery = deliveries.len() > 0;
        for item in it: deliveries
            invariant
                it.seq() == items,
                self.stream_session == snapshot.stream_session,
                self.screen == snapshot.screen,
                self.delivery_list_status == snapshot.delivery_list_status,
                self.stream_status == snapshot.stream_status,
                self.next_cursor == snapshot.next_cursor,
                self.detail_status == snapshot.detail_status,
                self.detail == snapshot.detail,
                self.update_notice == snapshot.update_notice,
                self.list_request_generation == snapshot.list_request_generation,
                self.detail_request_generation == snapshot.detail_request_generation,
                self.stream_session.wf(),
                selection_fits(self.deliveries@, self.selected_index),
                (self.deliveries@, self.selected_index) == insert_all(
                    rows0,
                    sel0,
                    items.take(it.index() as int),
                ),
        {
            let ghost idx = it.index() as int;
            proof {
                assert(items.take(idx + 1).drop_last() =~= items.take(idx));
                assert(items.take(idx + 1).last() == items[idx]);
                lemma_insert_step_fits(self.deliveries@, self.selected_index, item);
            }
            self.insert_or_replace_stream_delivery(item);
        }
        proof {
            assert(items.take(items.len() as int) =~= items);
            super::rows::lemma_insert_all_fits(rows0, sel0, items);
        }
        if inserted_delivery {
            self.delivery_list_status = if self.deliveries.len() == 0 {
                DeliveryListStatus::Empty
            } else {
                DeliveryListStatus::Ready
            };
        }
        self.stream_status = StreamStatus::Live;
    }

    /// Applies a stream error while keeping the loaded list visible: an authentication error
    /// stops the stream, any other error is retried.
    pub fn receive_stream_error(&mut self, error: &ApiError)
        requires
            old(self).wf(),
        ensures
            final(self).wf(),
            stream_error_applied(*old(self), *final(self), *error),
    {
        let app_error = AppError::from_api_error(error);
        self.stream_status = match app_error.kind() {
            AppErrorKind::Authentication => StreamStatus::Error(app_error),
            _ => StreamStatus::Reconnecting(app_error),
        };
    }

    /// Moves selection one row up.
    pub fn select_previous(&mut self)
        requires
            old(self).wf(),
        ensures
            final(self).wf(),
            moved_up(*old(self), *final(self)),
    {
        if let Some(index) = self.selected_index {
            self.selected_index = Some(index.saturating_sub(1));
        }
    }

    /// Moves selection one row down, stopping at the last row.
    pub fn select_next(&mut self)
        requires
            old(self).wf(),
        ensures
            final(self).wf(),
            moved_down(*old(self), *final(self)),
    {
        if let Some(index) = self.selected_index {
            let last = self.deliveries.len().saturating_sub(1);
            let next = index + 1;
            self.selected_index = Some(if next < last {
                next
            } else {
                last
            });
        }
    }

    /// Opens the detail screen of the selected delivery and returns the ID to load; with no
    /// selected row nothing changes.
    pub fn open_selected_detail(&mut self) -> (r: Option<PublicDeliveryId>)
        requires
            old(self).wf(),
        ensures
            final(self).wf(),
            detail_opened(*old(self), *final(self), r),
    {
        let public_delivery_id = match self.selected_delivery() {
            Some(item) => item.public_delivery_id().clone(),
            None => {
                return None;
            },
        };
        self.screen = Screen::DeliveryDetail { public_delivery_id: public_delivery_id.clone() };
        self.detail_status = DetailStatus::Loading;
        self.detail = None;
        self.detail_request_generation = self.detail_request_generation.saturating_add(1);
        Some(public_delivery_id)
    }

    /// Applies a successful detail response, unless the user has since left that detail
    /// screen or requested it again.
    pub fn receive_detail(&mut self, generation: u64, detail: DeliveryDetail)
        requires
            old(self).wf(),
        ensures
            final(self).wf(),
            detail_applied(*old(self), *final(self), generation, detail),
    {
        let public_delivery_id = detail.public_delivery_id().clone();
        if !self.detail_request_matches(generation, &public_delivery_id) {
            return;
        }
        self.screen = Screen::DeliveryDetail { public_delivery_id };
        self.detail_status = DetailStatus::Ready;
        self.detail = Some(detail);
    }

    /// Applies a failed detail response while keeping the detail screen visible. A response
    /// to an older request than the newest one changes nothing.
    pub fn receive_detail_error(&mut self, generation: u64, error: &ApiError)
        requires
            old(self).wf(),
        ensures
            final(self).wf(),
            detail_error_applied(*old(self), *final(self), generation, *error),
    {
        if generation != self.detail_request_generation {
            return;
        }
        self.detail_status = DetailStatus::Error(AppError::from_api_error(error));
    }

    /// Returns from detail to the delivery list; a pending detail result becomes stale.
    pub fn close_detail(&mut self)
        requires
            old(self).wf(),
        ensures
            final(self).wf(),
            detail_closed(*old(self), *final(self)),
    {
        self.screen = Screen::DeliveryList;
        self.detail_status = DetailStatus::Hidden;
        self.detail = None;
        self.detail_request_generation = self.detail_request_generation.saturating_add(1);
    }

    /// Applies a keyboard action and returns any side effect the caller must perform.
    ///
    /// Up and Down move the selection on the list screen. Open opens the selected row and asks
    /// to load its detail. Back leaves the detail screen. Refresh reloads the list (on the list
    /// screen) or the shown detail (on the detail screen). Quit asks to quit.
    pub fn handle_key_action(&mut self, action: KeyAction) -> (r: AppCommand)
        requires
            old(self).wf(),
        ensures
            final(self).wf(),
            key_applied(*old(self), *final(self), action, r),
    {
        match action {
            KeyAction::Quit => AppCommand::Quit,
            KeyAction::Up => {
                if let Screen::DeliveryList = self.screen {
                    self.select_previous();
                }
                AppCommand::Nothing
            },
            KeyAction::Down => {
                if let Screen::DeliveryList = self.screen {
                    self.select_next();
                }
                AppCommand::Nothing
            },
            KeyAction::Open => {
                if let Screen::DeliveryList = self.screen {
                    match self.open_selected_detail() {
                        Some(public_delivery_id) => AppCommand::LoadDetail {
                            public_delivery_id,
                            generation: self.detail_request_generation,
                        },
                        None => AppCommand::Nothing,
                    }
                } else {
                    AppCommand::Nothing
                }
            },
            KeyAction::Back => {
                if let Screen::DeliveryDetail { .. } = self.screen {
                    self.close_detail();
                }
                AppCommand::Nothing
            },
            KeyAction::Refresh => {
                let detail_id = match &self.screen {
                    Screen::DeliveryList => None,
                    Screen::DeliveryDetail { public_delivery_id } => Some(
                        public_delivery_id.clone(),
                    ),
                };
                match detail_id {
                    None => {
                        self.start_loading();
                        AppCommand::LoadDeliveries { generation: self.list_request_generation }
                    },
                    Some(public_delivery_id) => {
                        self.detail_status = DetailStatus::Loading;
                        self.detail = None;
                        self.detail_request_generation =
                        self.detail_request_generation.saturating_add(1);
                        AppCommand::LoadDetail {
                            public_delivery_id,
                            generation: self.detail_request_generation,
                        }
                    },
                }
            },
        }
    }

    /// Whether a finished detail request is still the one the user is waiting for: its
    /// generation is the newest and the detail screen of that delivery is open.
    pub fn detail_request_matches(&self, generation: u64, public_delivery_id: &PublicDeliveryId) -> (r:
        bool)
        ensures
            r == self.detail_request_is_current(generation, public_delivery_id.text()),
    {
        if generation != self.detail_request_generation {
            return false;
        }
        match &self.screen {
            Screen::DeliveryDetail { public_delivery_id: current } => current.same_as(
                public_delivery_id,
            ),
            Screen::DeliveryList => false,
        }
    }

    fn clamp_selection(&mut self)
        ensures
            *final(self) == (AppState {
                selected_index: clamped_selection(old(self).deliveries@.len(), old(self).selected_index),
                ..*old(self)
            }),
            old(self).wf() ==> *final(self) == *old(self),
    {
        let len = self.deliveries.len();
        self.selected_index = match self.selected_index {
            _ if len == 0 => None,
            Some(index) if index >= len => Some(len - 1),
            other => other,
        };
    }

    fn insert_or_replace_stream_delivery(&mut self, item: DeliveryListItem)
        requires
            selection_fits(old(self).rows(), old(self).selection()),
        ensures
            (final(self).rows(), final(self).selection()) == insert_step(
                old(self).rows(),
                old(self).selection(),
                item,
            ),
            selection_fits(final(self).rows(), final(self).selection()),
            final(self).stream_session == old(self).stream_session,
            final(self).screen == old(self).screen,
            final(self).delivery_list_status == old(self).delivery_list_status,
            final(self).stream_status == old(self).stream_status,
            final(self).next_cursor == old(self).next_cursor,
            final(self).detail_status == old(self).detail_status,
            final(self).detail == old(self).detail,
            final(self).update_notice == old(self).update_notice,
            final(self).list_request_generation == old(self).list_request_generation,
            final(self).detail_request_generation == old(self).detail_request_generation,
    {
        let mut rows: Vec<DeliveryListItem> = Vec::new();
        std::mem::swap(&mut rows, &mut self.deliveries);
        let (new_rows, new_selected) = insert_or_replace(rows, self.selected_index, item);
        self.deliveries = new_rows;
        self.selected_index = new_selected;
    }
}

impl Default for AppState {
    fn default() -> (r: Self)
        ensures
            r.wf(),
            r.screen_v() == Screen::DeliveryList,
            r.list_status() == DeliveryListStatus::Loading,
            r.stream_status_v() == StreamStatus::Disconnected,
            r.rows().len() == 0,
            r.selection() is None,
            r.next_cursor_v() is None,
            r.session().resume is None,
            r.session().seen == Set::<Seq<char>>::empty(),
            r.detail_status_v() == DetailStatus::Hidden,
            r.detail_v() is None,
            r.notice() is None,
            r.list_gen() == 0,
            r.detail_gen() == 0,
    {
        AppState {
            screen: Screen::DeliveryList,
            delivery_list_status: DeliveryListStatus::Loading,
            stream_status: StreamStatus::Disconnected,
            deliveries: Vec::new(),
            selected_index: None,
            next_cursor: None,
            stream_session: DeliveryStreamSession::new(),
            detail_status: DetailStatus::Hidden,
            detail: None,
            update_notice: None,
            list_request_generation: 0,
            detail_request_generation: 0,
        }
    }
}

} // verus!
