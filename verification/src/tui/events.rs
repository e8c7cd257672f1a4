//! Decisions of the terminal UI event loop: applying worker results, starting the live
//! stream, mapping keys, and what the stream worker does after each connection attempt.
use vstd::prelude::*;

use crate::api::{
    ApiError, DeliveryDetail, DeliveryListPage, DeliveryStreamFrame, PublicDeliveryId, StreamCursor,
    opt_cursor_text,
};

use super::state::{
    AppState, DeliveryListStatus, KeyAction, detail_applied, detail_error_applied, frames_applied,
    list_error_applied, page_applied, stream_error_applied,
};

verus! {

/// Result of a background load, tagged with the request it answers.
#[allow(inconsistent_fields)]
pub enum LoadWorkerMessage {
    DeliveryPage { generation: u64, result: Result<DeliveryListPage, ApiError> },
    Detail {
        public_delivery_id: PublicDeliveryId,
        generation: u64,
        result: Result<DeliveryDetail, ApiError>,
    },
}

/// What the stream worker reports.
pub enum StreamWorkerMessage {
    Frames(Vec<DeliveryStreamFrame>),
    Error(ApiError),
}

/// What applying a load result does to the state: a list result is applied by generation; a
/// detail result only while the requested delivery's detail is still the one awaited, and
/// otherwise changes nothing.
pub open spec fn load_message_applied(
    before: AppState,
    after: AppState,
    message: LoadWorkerMessage,
) -> bool {
    match message {
        LoadWorkerMessage::DeliveryPage { generation, result } => match result {
            Ok(page) => page_applied(before, after, generation, page),
            Err(error) => list_error_applied(before, after, generation, error),
        },
        LoadWorkerMessage::Detail { public_delivery_id, generation, result } => {
            if before.detail_request_is_current(generation, public_delivery_id.text()) {
                match result {
                    Ok(detail) => detail_applied(before, after, generation, detail),
                    Err(error) => detail_error_applied(before, after, generation, error),
                }
            } else {
                after == before
            }
        },
    }
}

/// Applies the result of a background load to the state.
pub fn apply_load_message(state: &mut AppState, message: LoadWorkerMessage)
    requires
        old(state).wf(),
    ensures
        final(state).wf(),
        load_message_applied(*old(state), *final(state), message),
{
    match message {
        LoadWorkerMessage::DeliveryPage { generation, result } => match result {
            Ok(page) => state.receive_delivery_page(generation, page),
            Err(error) => state.receive_list_error(generation, &error),
        },
        LoadWorkerMessage::Detail { public_delivery_id, generation, result } => {
            if state.detail_request_matches(generation, &public_delivery_id) {
                match result {
                    Ok(detail) => state.receive_detail(generation, detail),
                    Err(error) => state.receive_detail_error(generation, &error),
                }
            }
        },
    }
}

/// What applying a stream report does to the state.
pub open spec fn stream_message_applied(
    before: AppState,
    after: AppState,
    message: StreamWorkerMessage,
) -> bool {
    match message {
        StreamWorkerMessage::Frames(frames) => frames_applied(before, after, frames@),
        StreamWorkerMessage::Error(error) => stream_error_applied(before, after, error),
    }
}

/// Applies a stream worker report to the state.
pub fn apply_stream_message(state: &mut AppState, message: StreamWorkerMessage)
    requires
        old(state).wf(),
    ensures
        final(state).wf(),
        stream_message_applied(*old(state), *final(state), message),
{
    match message {
        StreamWorkerMessage::Frames(frames) => state.receive_stream_frames(frames),
        StreamWorkerMessage::Error(error) => state.receive_stream_error(&error),
    }
}

/// Starts the live stream once the list has finished its first load and no stream runs: the
/// state moves to connecting and the result is the cursor to resume after. Returns `None`,
/// changing nothing, when a stream runs or the list is still loading.
pub fn ensure_stream_started(state: &mut AppState, stream_running: bool) -> (r: Option<
    Option<StreamCursor>,
>)
    requires
        old(state).wf(),
    ensures
        final(state).wf(),
        (stream_running || old(state).list_status() == DeliveryListStatus::Loading) ==> (r is None
            && *final(state) == *old(state)),
        !(stream_running || old(state).list_status() == DeliveryListStatus::Loading) ==> {
            &&& r matches Some(after) && opt_cursor_text(after) == old(state).session().resume
            &&& final(state).stream_status_v() == super::state::StreamStatus::Connecting
            &&& final(state).same_list(old(state))
            &&& final(state).same_detail(old(state))
            &&& final(state).list_status() == old(state).list_status()
            &&& final(state).notice() == old(state).notice()
        },
{
    let loading = match state.delivery_list_status() {
        DeliveryListStatus::Loading => true,
        _ => false,
    };
    if stream_running || loading {
        return None;
    }
    state.start_stream();
    let resume = match state.stream_resume_cursor() {
        Some(c) => Some(c.clone()),
        None => None,
    };
    Some(resume)
}

/// A key as the terminal reports it.
#[derive(Debug, Clone, Copy, PartialEq, Eq)]
pub enum KeyCode {
    Char(char),
    Up,
    Down,
    Enter,
    Esc,
    Backspace,
    Other,
}

/// Action bound to a key: Ctrl-C and `q` quit, arrows and `k`/`j` move, Enter and `o` open,
/// Esc, Backspace and `b` go back, `r` refreshes.
pub open spec fn key_action_of(code: KeyCode, control: bool) -> Option<KeyAction> {
    match code {
        KeyCode::Char(c) => if c == 'c' && control {
            Some(KeyAction::Quit)
        } else if c == 'q' {
            Some(KeyAction::Quit)
        } else if c == 'k' {
            Some(KeyAction::Up)
        } else if c == 'j' {
            Some(KeyAction::Down)
        } else if c == 'o' {
            Some(KeyAction::Open)
        } else if c == 'b' {
            Some(KeyAction::Back)
        } else if c == 'r' {
            Some(KeyAction::Refresh)
        } else {
            None
        },
        KeyCode::Up => Some(KeyAction::Up),
        KeyCode::Down => Some(KeyAction::Down),
        KeyCode::Enter => Some(KeyAction::Open),
        KeyCode::Esc => Some(KeyAction::Back),
        KeyCode::Backspace => Some(KeyAction::Back),
        KeyCode::Other => None,
    }
}

/// Maps a key press, with whether Control was held, to its action.
pub fn key_action(code: KeyCode, control: bool) -> (r: Option<KeyAction>)
    ensures
        r == key_action_of(code, control),
{
    match code {
        KeyCode::Char(c) => {
            if c == 'c' && control {
                Some(KeyAction::Quit)
            } else if c == 'q' {
                Some(KeyAction::Quit)
            } else if c == 'k' {
                Some(KeyAction::Up)
            } else if c == 'j' {
                Some(KeyAction::Down)
            } else if c == 'o' {
                Some(KeyAction::Open)
            } else if c == 'b' {
                Some(KeyAction::Back)
            } else if c == 'r' {
                Some(KeyAction::Refresh)
            } else {
                None
            }
        },
        KeyCode::Up => Some(KeyAction::Up),
        KeyCode::Down => Some(KeyAction::Down),
        KeyCode::Enter => Some(KeyAction::Open),
        KeyCode::Esc => Some(KeyAction::Back),
        KeyCode::Backspace => Some(KeyAction::Back),
        KeyCode::Other => None,
    }
}

/// What the stream worker does after a connection attempt ends.
#[derive(Debug, Clone, Copy, PartialEq, Eq)]
pub enum StreamRetry {
    /// Report an empty batch of frames (the stream ended without any), then wait and retry.
    ReportEmptyThenRetry,
    /// Wait and retry.
    Retry,
    /// Report the error, then wait and retry.
    ReportErrorThenRetry,
    /// Report the error and stop: the token was rejected.
    ReportErrorThenStop,
}

/// Decision after a connection attempt: a stream that ended cleanly is retried, after
/// reporting an empty batch when it delivered no frame; a failed one is reported, and retried
/// unless the failure is an authentication error.
pub open spec fn stream_retry_of(received_frame: bool, outcome: Result<(), ApiError>) -> StreamRetry {
    match outcome {
        Ok(()) => if received_frame {
            StreamRetry::Retry
        } else {
            StreamRetry::ReportEmptyThenRetry
        },
        Err(e) => match e {
            ApiError::Authentication { .. } => StreamRetry::ReportErrorThenStop,
            _ => StreamRetry::ReportErrorThenRetry,
        },
    }
}

/// Decides what the stream worker does after a connection attempt (see `stream_retry_of`).
pub fn after_stream_attempt(received_frame: bool, outcome: &Result<(), ApiError>) -> (r: StreamRetry)
    ensures
        r == stream_retry_of(received_frame, *outcome),
{
    match outcome {
        Ok(()) => if received_frame {
            StreamRetry::Retry
        } else {
            StreamRetry::ReportEmptyThenRetry
        },
        Err(e) => match e {
            ApiError::Authentication { .. } => StreamRetry::ReportErrorThenStop,
            _ => StreamRetry::ReportErrorThenRetry,
        },
    }
}

} // verus!
