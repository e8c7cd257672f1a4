//! MESHH API values: validated identifiers, delivery records, stream frames and API errors.
use vstd::prelude::*;

use crate::config::RuntimeConfig;
use crate::credentials::BearerToken;

use crate::text::{concat2, decimal, decimal_text, is_blank, opt_str_text, opt_text, str_is_blank};

verus! {

/// Configuration needed by MESHH API clients.
#[derive(Debug, PartialEq, Eq)]
pub struct ApiClientConfig {
    api_base_url: String,
}

impl ApiClientConfig {
    /// The API base URL the configuration holds.
    pub closed spec fn base_url_text(&self) -> Seq<char> {
        self.api_base_url@
    }

    /// Creates API client configuration from runtime configuration.
    pub fn from_runtime(config: &RuntimeConfig) -> (r: Self)
        ensures
            r.base_url_text() == config.base_url_text(),
    {
        ApiClientConfig { api_base_url: config.api_base_url().to_owned() }
    }

    /// Returns the resolved API base URL.
    pub fn api_base_url(&self) -> (r: &str)
        ensures
            r@ == self.base_url_text(),
    {
        self.api_base_url.as_str()
    }
}

/// Text of the error returned when a required identifier or label is blank.
pub open spec fn blank_field_message(field: Seq<char>) -> Seq<char> {
    field + " cannot be empty"@
}

fn blank_field_error(field: &str) -> (e: ApiError)
    ensures
        e matches ApiError::InvalidResponse { message } && message@ == blank_field_message(field@),
{
    ApiError::InvalidResponse { message: concat2(field, " cannot be empty") }
}

/// Public identifier of a route delivery.
#[derive(Debug, PartialEq, Eq)]
pub struct PublicDeliveryId(String);

impl PublicDeliveryId {
    /// The identifier text.
    pub closed spec fn text(&self) -> Seq<char> {
        self.0@
    }

    /// Creates an identifier, rejecting blank input.
    pub fn new(value: &str) -> (r: Result<Self, ApiError>)
        ensures
            r is Ok <==> !is_blank(value@),
            r matches Ok(id) ==> id.text() == value@,
            r matches Err(e) ==> e matches ApiError::InvalidResponse { message }
                && message@ == blank_field_message("public delivery ID"@),
    {
        if str_is_blank(value) {
            Err(blank_field_error("public delivery ID"))
        } else {
            Ok(PublicDeliveryId(value.to_owned()))
        }
    }

    /// Returns the identifier text.
    pub fn as_str(&self) -> (r: &str)
        ensures
            r@ == self.text(),
    {
        self.0.as_str()
    }

    /// Whether two identifiers hold the same text.
    pub fn same_as(&self, other: &PublicDeliveryId) -> (r: bool)
        ensures
            r == (self.text() == other.text()),
    {
        self.0 == other.0
    }
}

impl Clone for PublicDeliveryId {
    fn clone(&self) -> (r: Self)
        ensures
            r == *self,
    {
        PublicDeliveryId(self.0.clone())
    }
}

/// Opaque position in the delivery stream.
#[derive(Debug, PartialEq, Eq)]
pub struct StreamCursor(String);

impl StreamCursor {
    /// The cursor text.
    pub closed spec fn text(&self) -> Seq<char> {
        self.0@
    }

    /// Creates a cursor, rejecting blank input.
    pub fn new(value: &str) -> (r: Result<Self, ApiError>)
        ensures
            r is Ok <==> !is_blank(value@),
            r matches Ok(c) ==> c.text() == value@,
            r matches Err(e) ==> e matches ApiError::InvalidResponse { message }
                && message@ == blank_field_message("stream cursor"@),
    {
        if str_is_blank(value) {
            Err(blank_field_error("stream cursor"))
        } else {
            Ok(StreamCursor(value.to_owned()))
        }
    }

    /// Returns the cursor text.
    pub fn as_str(&self) -> (r: &str)
        ensures
            r@ == self.text(),
    {
        self.0.as_str()
    }

    /// Whether two cursors hold the same text.
    pub fn same_as(&self, other: &StreamCursor) -> (r: bool)
        ensures
            r == (self.text() == other.text()),
    {
        self.0 == other.0
    }
}

impl Clone for StreamCursor {
    fn clone(&self) -> (r: Self)
        ensures
            r == *self,
    {
        StreamCursor(self.0.clone())
    }
}

/// Text of an optional cursor.
pub open spec fn opt_cursor_text(c: Option<StreamCursor>) -> Option<Seq<char>> {
    match c {
        Some(c) => Some(c.text()),
        None => None,
    }
}

/// Delivery status label reported by MESHH.
#[derive(Debug, PartialEq, Eq)]
pub struct DeliveryStatus(String);

impl DeliveryStatus {
    /// The status text.
    pub closed spec fn text(&self) -> Seq<char> {
        self.0@
    }

    /// Creates a status label, rejecting blank input.
    pub fn new(value: &str) -> (r: Result<Self, ApiError>)
        ensures
            r is Ok <==> !is_blank(value@),
            r matches Ok(s) ==> s.text() == value@,
            r matches Err(e) ==> e matches ApiError::InvalidResponse { message }
                && message@ == blank_field_message("delivery status"@),
    {
        if str_is_blank(value) {
            Err(blank_field_error("delivery status"))
        } else {
            Ok(DeliveryStatus(value.to_owned()))
        }
    }

    /// Returns the status text.
    pub fn as_str(&self) -> (r: &str)
        ensures
            r@ == self.text(),
    {
        self.0.as_str()
    }
}

/// Name of a route that matched a delivery.
#[derive(Debug, PartialEq, Eq)]
pub struct MatchedRoute(String);

impl MatchedRoute {
    /// The route name.
    pub closed spec fn text(&self) -> Seq<char> {
        self.0@
    }

    /// Creates a matched route, rejecting a blank name.
    pub fn new(name: &str) -> (r: Result<Self, ApiError>)
        ensures
            r is Ok <==> !is_blank(name@),
            r matches Ok(m) ==> m.text() == name@,
            r matches Err(e) ==> e matches ApiError::InvalidResponse { message }
                && message@ == blank_field_message("matched route name"@),
    {
        if str_is_blank(name) {
            Err(blank_field_error("matched route name"))
        } else {
            Ok(MatchedRoute(name.to_owned()))
        }
    }

    /// Returns the route name.
    pub fn name(&self) -> (r: &str)
        ensures
            r@ == self.text(),
    {
        self.0.as_str()
    }
}

fn opt_as_str(o: &Option<String>) -> (r: Option<&str>)
    ensures
        opt_str_text(r) == opt_text(*o),
{
    match o {
        Some(s) => Some(s.as_str()),
        None => None,
    }
}

/// The timestamp a delivery is shown with: its publication time, else its detection time.
pub open spec fn display_timestamp_of(
    published_at: Option<String>,
    detected_at: Option<String>,
) -> Option<Seq<char>> {
    match published_at {
        Some(p) => Some(p@),
        None => opt_text(detected_at),
    }
}

/// One row of the delivery list.
#[derive(Debug, PartialEq, Eq)]
pub struct DeliveryListItem {
    public_delivery_id: PublicDeliveryId,
    headline: String,
    source_context: Option<String>,
    status: DeliveryStatus,
    published_at: Option<String>,
    detected_at: Option<String>,
    cursor: Option<StreamCursor>,
}

impl DeliveryListItem {
    /// Identifier text of the row.
    pub closed spec fn id_text(&self) -> Seq<char> {
        self.public_delivery_id.text()
    }

    /// Cursor text of the row, when the row carries one.
    pub closed spec fn cursor_text(&self) -> Option<Seq<char>> {
        opt_cursor_text(self.cursor)
    }

    /// Headline text of the row.
    pub closed spec fn headline_text(&self) -> Seq<char> {
        self.headline@
    }

    /// Source context text of the row.
    pub closed spec fn source_context_text(&self) -> Option<Seq<char>> {
        opt_text(self.source_context)
    }

    /// Status text of the row.
    pub closed spec fn status_text(&self) -> Seq<char> {
        self.status.text()
    }

    /// Timestamp text the row is shown with.
    pub closed spec fn display_timestamp_text(&self) -> Option<Seq<char>> {
        display_timestamp_of(self.published_at, self.detected_at)
    }

    /// Creates a delivery row, rejecting a blank headline.
    pub fn new(
        public_delivery_id: PublicDeliveryId,
        headline: &str,
        source_context: Option<String>,
        status: DeliveryStatus,
        published_at: Option<String>,
        detected_at: Option<String>,
        cursor: Option<StreamCursor>,
    ) -> (r: Result<Self, ApiError>)
        ensures
            r is Ok <==> !is_blank(headline@),
            r matches Ok(item) ==> {
                &&& item.id_text() == public_delivery_id.text()
                &&& item.headline_text() == headline@
                &&& item.source_context_text() == opt_text(source_context)
                &&& item.status_text() == status.text()
                &&& item.display_timestamp_text() == display_timestamp_of(published_at, detected_at)
                &&& item.cursor_text() == opt_cursor_text(cursor)
            },
            r matches Err(e) ==> e matches ApiError::InvalidResponse { message }
                && message@ == blank_field_message("delivery headline"@),
    {
        if str_is_blank(headline) {
            return Err(blank_field_error("delivery headline"));
        }
        Ok(
            DeliveryListItem {
                public_delivery_id,
                headline: headline.to_owned(),
                source_context,
                status,
                published_at,
                detected_at,
                cursor,
            },
        )
    }

    /// Returns the public delivery ID.
    pub fn public_delivery_id(&self) -> (r: &PublicDeliveryId)
        ensures
            r.text() == self.id_text(),
    {
        &self.public_delivery_id
    }

    /// Returns the headline.
    pub fn headline(&self) -> (r: &str)
        ensures
            r@ == self.headline_text(),
    {
        self.headline.as_str()
    }

    /// Returns the source context, when provided.
    pub fn source_context(&self) -> (r: Option<&str>)
        ensures
            opt_str_text(r) == self.source_context_text(),
    {
        opt_as_str(&self.source_context)
    }

    /// Returns the delivery status.
    pub fn status(&self) -> (r: &DeliveryStatus)
        ensures
            r.text() == self.status_text(),
    {
        &self.status
    }

    /// Returns the publication time, falling back to the detection time.
    pub fn display_timestamp(&self) -> (r: Option<&str>)
        ensures
            opt_str_text(r) == self.display_timestamp_text(),
    {
        match &self.published_at {
            Some(p) => Some(p.as_str()),
            None => opt_as_str(&self.detected_at),
        }
    }

    /// Returns the stream cursor of the row, when provided.
    pub fn cursor(&self) -> (r: Option<&StreamCursor>)
        ensures
            r matches Some(c) ==> self.cursor_text() == Some(c.text()),
            r is None ==> self.cursor_text() is None,
    {
        match &self.cursor {
            Some(c) => Some(c),
            None => None,
        }
    }
}

impl Clone for DeliveryListItem {
    fn clone(&self) -> (r: Self)
        ensures
            r == *self,
    {
        DeliveryListItem {
            public_delivery_id: self.public_delivery_id.clone(),
            headline: self.headline.clone(),
            source_context: self.source_context.clone(),
            status: DeliveryStatus(self.status.0.clone()),
            published_at: self.published_at.clone(),
            detected_at: self.detected_at.clone(),
            cursor: self.cursor.clone(),
        }
    }
}

/// A page of recent deliveries, with the history cursor for the next page.
#[derive(Debug, PartialEq, Eq)]
pub struct DeliveryListPage {
    items: Vec<DeliveryListItem>,
    next_cursor: Option<StreamCursor>,
}

impl DeliveryListPage {
    /// The rows of the page.
    pub closed spec fn items_seq(&self) -> Seq<DeliveryListItem> {
        self.items@
    }

    /// The history cursor of the page.
    pub closed spec fn next_cursor_value(&self) -> Option<StreamCursor> {
        self.next_cursor
    }

    /// Creates a page.
    pub fn new(items: Vec<DeliveryListItem>, next_cursor: Option<StreamCursor>) -> (r: Self)
        ensures
            r.items_seq() == items@,
            r.next_cursor_value() == next_cursor,
    {
        DeliveryListPage { items, next_cursor }
    }

    /// Returns the rows.
    pub fn items(&self) -> (r: &[DeliveryListItem])
        ensures
            r@ == self.items_seq(),
    {
        self.items.as_slice()
    }

    /// Returns the history cursor for the next page.
    pub fn next_cursor(&self) -> (r: Option<&StreamCursor>)
        ensures
            r matches Some(c) ==> self.next_cursor_value() == Some(*c),
            r is None ==> self.next_cursor_value() is None,
    {
        match &self.next_cursor {
            Some(c) => Some(c),
            None => None,
        }
    }

    /// Splits the page into its rows and its history cursor.
    pub fn into_parts(self) -> (r: (Vec<DeliveryListItem>, Option<StreamCursor>))
        ensures
            r.0@ == self.items_seq(),
            r.1 == self.next_cursor_value(),
    {
        (self.items, self.next_cursor)
    }
}

/// Full record of one delivery, shown in the detail view.
#[derive(Debug, PartialEq, Eq)]
pub struct DeliveryDetail {
    public_delivery_id: PublicDeliveryId,
    headline: String,
    summary: Option<String>,
    body: Option<String>,
    source_url: Option<String>,
    source_context: Option<String>,
    status: DeliveryStatus,
    published_at: Option<String>,
    detected_at: Option<String>,
    matched_routes: Vec<MatchedRoute>,
    cursor: Option<StreamCursor>,
}

impl DeliveryDetail {
    /// Identifier text of the delivery.
    pub closed spec fn id_text(&self) -> Seq<char> {
        self.public_delivery_id.text()
    }

    /// Headline text.
    pub closed spec fn headline_text(&self) -> Seq<char> {
        self.headline@
    }

    /// Summary text.
    pub closed spec fn summary_text(&self) -> Option<Seq<char>> {
        opt_text(self.summary)
    }

    /// Body text.
    pub closed spec fn body_text(&self) -> Option<Seq<char>> {
        opt_text(self.body)
    }

    /// Source URL text.
    pub closed spec fn source_url_text(&self) -> Option<Seq<char>> {
        opt_text(self.source_url)
    }

    /// Source context text.
    pub closed spec fn source_context_text(&self) -> Option<Seq<char>> {
        opt_text(self.source_context)
    }

    /// Status text.
    pub closed spec fn status_text(&self) -> Seq<char> {
        self.status.text()
    }

    /// Timestamp text the delivery is shown with.
    pub closed spec fn display_timestamp_text(&self) -> Option<Seq<char>> {
        display_timestamp_of(self.published_at, self.detected_at)
    }

    /// Matched routes.
    pub closed spec fn routes(&self) -> Seq<MatchedRoute> {
        self.matched_routes@
    }

    /// Creates a delivery detail, rejecting a blank headline.
    pub fn new(
        public_delivery_id: PublicDeliveryId,
        headline: &str,
        summary: Option<String>,
        body: Option<String>,
        source_url: Option<String>,
        source_context: Option<String>,
        status: DeliveryStatus,
        published_at: Option<String>,
        detected_at: Option<String>,
        matched_routes: Vec<MatchedRoute>,
        cursor: Option<StreamCursor>,
    ) -> (r: Result<Self, ApiError>)
        ensures
            r is Ok <==> !is_blank(headline@),
            r matches Ok(d) ==> {
                &&& d.id_text() == public_delivery_id.text()
                &&& d.headline_text() == headline@
                &&& d.summary_text() == opt_text(summary)
                &&& d.body_text() == opt_text(body)
                &&& d.source_url_text() == opt_text(source_url)
                &&& d.source_context_text() == opt_text(source_context)
                &&& d.status_text() == status.text()
                &&& d.display_timestamp_text() == display_timestamp_of(published_at, detected_at)
                &&& d.routes() == matched_routes@
            },
            r matches Err(e) ==> e matches ApiError::InvalidResponse { message }
                && message@ == blank_field_message("delivery headline"@),
    {
        if str_is_blank(headline) {
            return Err(blank_field_error("delivery headline"));
        }
        Ok(
            DeliveryDetail {
                public_delivery_id,
                headline: headline.to_owned(),
                summary,
                body,
                source_url,
                source_context,
                status,
                published_at,
                detected_at,
                matched_routes,
                cursor,
            },
        )
    }

    /// Returns the public delivery ID.
    pub fn public_delivery_id(&self) -> (r: &PublicDeliveryId)
        ensures
            r.text() == self.id_text(),
    {
        &self.public_delivery_id
    }

    /// Returns the headline.
    pub fn headline(&self) -> (r: &str)
        ensures
            r@ == self.headline_text(),
    {
        self.headline.as_str()
    }

    /// Returns the summary, when provided.
    pub fn summary(&self) -> (r: Option<&str>)
        ensures
            opt_str_text(r) == self.summary_text(),
    {
        opt_as_str(&self.summary)
    }

    /// Returns the body text, when provided.
    pub fn body(&self) -> (r: Option<&str>)
        ensures
            opt_str_text(r) == self.body_text(),
    {
        opt_as_str(&self.body)
    }

    /// Returns the source URL, when provided.
    pub fn source_url(&self) -> (r: Option<&str>)
        ensures
            opt_str_text(r) == self.source_url_text(),
    {
        opt_as_str(&self.source_url)
    }

    /// Returns the source context, when provided.
    pub fn source_context(&self) -> (r: Option<&str>)
        ensures
            opt_str_text(r) == self.source_context_text(),
    {
        opt_as_str(&self.source_context)
    }

    /// Returns the delivery status.
    pub fn status(&self) -> (r: &DeliveryStatus)
        ensures
            r.text() == self.status_text(),
    {
        &self.status
    }

    /// Returns the publication time, falling back to the detection time.
    pub fn display_timestamp(&self) -> (r: Option<&str>)
        ensures
            opt_str_text(r) == self.display_timestamp_text(),
    {
        match &self.published_at {
            Some(p) => Some(p.as_str()),
            None => opt_as_str(&self.detected_at),
        }
    }

    /// Returns the routes that matched the delivery.
    pub fn matched_routes(&self) -> (r: &[MatchedRoute])
        ensures
            r@ == self.routes(),
    {
        self.matched_routes.as_slice()
    }
}

/// One frame received from the live delivery stream.
#[derive(Debug, PartialEq, Eq)]
pub enum DeliveryStreamFrame {
    Connected,
    Cursor(StreamCursor),
    Delivery { cursor: Option<StreamCursor>, item: DeliveryListItem },
}

/// Cursor text a frame carries: a cursor frame's cursor, or a delivery frame's own cursor,
/// falling back to the cursor of the delivered row.
pub open spec fn frame_cursor_text(frame: DeliveryStreamFrame) -> Option<Seq<char>> {
    match frame {
        DeliveryStreamFrame::Connected => None,
        DeliveryStreamFrame::Cursor(c) => Some(c.text()),
        DeliveryStreamFrame::Delivery { cursor, item } => match cursor {
            Some(c) => Some(c.text()),
            None => item.cursor_text(),
        },
    }
}

/// Device code identifying a pending device login.
#[derive(Debug, PartialEq, Eq)]
pub struct DeviceCode(String);

impl DeviceCode {
    /// The code text.
    pub closed spec fn text(&self) -> Seq<char> {
        self.0@
    }

    /// Creates a device code, rejecting blank input.
    pub fn new(value: &str) -> (r: Result<Self, ApiError>)
        ensures
            r is Ok <==> !is_blank(value@),
            r matches Ok(c) ==> c.text() == value@,
            r matches Err(e) ==> e matches ApiError::InvalidResponse { message }
                && message@ == blank_field_message("device code"@),
    {
        if str_is_blank(value) {
            Err(blank_field_error("device code"))
        } else {
            Ok(DeviceCode(value.to_owned()))
        }
    }

    /// Returns the code text.
    pub fn as_str(&self) -> (r: &str)
        ensures
            r@ == self.text(),
    {
        self.0.as_str()
    }
}

impl Clone for DeviceCode {
    fn clone(&self) -> (r: Self)
        ensures
            r == *self,
    {
        DeviceCode(self.0.clone())
    }
}

/// Code the user confirms in the browser during a device login.
#[derive(Debug, PartialEq, Eq)]
pub struct UserCode(String);

impl UserCode {
    /// The code text.
    pub closed spec fn text(&self) -> Seq<char> {
        self.0@
    }

    /// Creates a user code, rejecting blank input.
    pub fn new(value: &str) -> (r: Result<Self, ApiError>)
        ensures
            r is Ok <==> !is_blank(value@),
            r matches Ok(c) ==> c.text() == value@,
            r matches Err(e) ==> e matches ApiError::InvalidResponse { message }
                && message@ == blank_field_message("user code"@),
    {
        if str_is_blank(value) {
            Err(blank_field_error("user code"))
        } else {
            Ok(UserCode(value.to_owned()))
        }
    }

    /// Returns the code text.
    pub fn as_str(&self) -> (r: &str)
        ensures
            r@ == self.text(),
    {
        self.0.as_str()
    }
}

impl Clone for UserCode {
    fn clone(&self) -> (r: Self)
        ensures
            r == *self,
    {
        UserCode(self.0.clone())
    }
}

/// A started device login: the codes, where to approve it, and its timing in whole seconds.
#[derive(Debug, PartialEq, Eq)]
pub struct DeviceAuthorization {
    device_code: DeviceCode,
    user_code: UserCode,
    verification_url: String,
    verification_url_complete: Option<String>,
    expires_in_secs: u64,
    poll_interval_secs: u64,
}

impl DeviceAuthorization {
    /// The device code.
    pub closed spec fn device_code_value(&self) -> DeviceCode {
        self.device_code
    }

    /// The user code.
    pub closed spec fn user_code_value(&self) -> UserCode {
        self.user_code
    }

    /// The verification URL.
    pub closed spec fn url_text(&self) -> Seq<char> {
        self.verification_url@
    }

    /// The verification URL with the user code filled in, when provided.
    pub closed spec fn complete_url_text(&self) -> Option<Seq<char>> {
        opt_text(self.verification_url_complete)
    }

    /// Seconds until the login expires.
    pub closed spec fn expires_secs(&self) -> u64 {
        self.expires_in_secs
    }

    /// Seconds to wait between polls.
    pub closed spec fn interval_secs(&self) -> u64 {
        self.poll_interval_secs
    }

    /// Creates a device authorization, rejecting a blank verification URL.
    pub fn new(
        device_code: DeviceCode,
        user_code: UserCode,
        verification_url: &str,
        verification_url_complete: Option<String>,
        expires_in_secs: u64,
        poll_interval_secs: u64,
    ) -> (r: Result<Self, ApiError>)
        ensures
            r is Ok <==> !is_blank(verification_url@),
            r matches Ok(a) ==> {
                &&& a.device_code_value() == device_code
                &&& a.user_code_value() == user_code
                &&& a.url_text() == verification_url@
                &&& a.complete_url_text() == opt_text(verification_url_complete)
                &&& a.expires_secs() == expires_in_secs
                &&& a.interval_secs() == poll_interval_secs
            },
            r matches Err(e) ==> e matches ApiError::InvalidResponse { message }
                && message@ == blank_field_message("verification URL"@),
    {
        if str_is_blank(verification_url) {
            return Err(blank_field_error("verification URL"));
        }
        Ok(
            DeviceAuthorization {
                device_code,
                user_code,
                verification_url: verification_url.to_owned(),
                verification_url_complete,
                expires_in_secs,
                poll_interval_secs,
            },
        )
    }

    /// Returns the device code.
    pub fn device_code(&self) -> (r: &DeviceCode)
        ensures
            *r == self.device_code_value(),
    {
        &self.device_code
    }

    /// Returns the user code.
    pub fn user_code(&self) -> (r: &UserCode)
        ensures
            *r == self.user_code_value(),
    {
        &self.user_code
    }

    /// Returns the verification URL.
    pub fn verification_url(&self) -> (r: &str)
        ensures
            r@ == self.url_text(),
    {
        self.verification_url.as_str()
    }

    /// Returns the verification URL with the user code filled in, when provided.
    pub fn verification_url_complete(&self) -> (r: Option<&str>)
        ensures
            opt_str_text(r) == self.complete_url_text(),
    {
        opt_as_str(&self.verification_url_complete)
    }

    /// Returns the seconds until the login expires.
    pub fn expires_in_secs(&self) -> (r: u64)
        ensures
            r == self.expires_secs(),
    {
        self.expires_in_secs
    }

    /// Returns the seconds to wait between polls.
    pub fn poll_interval_secs(&self) -> (r: u64)
        ensures
            r == self.interval_secs(),
    {
        self.poll_interval_secs
    }
}

/// Answer to one poll of a pending device login.
#[derive(PartialEq, Eq)]
pub enum DeviceTokenPoll {
    Approved { token: BearerToken },
    Pending,
    SlowDown,
    Denied,
    Expired,
    InvalidDeviceCode,
}

/// Error reported by the network transport below the MESHH API.
#[derive(Debug, PartialEq, Eq)]
pub struct TransportError {
    message: String,
}

impl TransportError {
    /// Text of the transport failure.
    pub closed spec fn text(&self) -> Seq<char> {
        self.message@
    }

    /// Creates a transport error from its description.
    pub fn new(message: &str) -> (r: Self)
        ensures
            r.text() == message@,
    {
        TransportError { message: message.to_owned() }
    }

    /// Returns the description of the failure.
    pub fn message(&self) -> (r: &str)
        ensures
            r@ == self.text(),
    {
        self.message.as_str()
    }
}

/// Errors returned by MESHH API calls.
#[derive(Debug, PartialEq, Eq)]
pub enum ApiError {
    Authentication { operation: &'static str, status: u16, body: String },
    Transport { source: TransportError },
    HttpStatus { operation: &'static str, status: u16, body: String },
    InvalidResponse { message: String },
}

/// User-facing description of an API error. Response bodies are never shown.
pub open spec fn api_error_text(error: ApiError) -> Seq<char> {
    match error {
        ApiError::Authentication { operation, status, .. } => "MESHH rejected the stored token while "@
            + operation@ + " (HTTP "@ + decimal(status as nat) + "); run `meshh login` again"@,
        ApiError::Transport { source } => "network error while contacting MESHH: "@
            + source.text(),
        ApiError::HttpStatus { operation, status, .. } => "MESHH API returned HTTP "@ + decimal(
            status as nat,
        ) + " while "@ + operation@,
        ApiError::InvalidResponse { message } => "invalid MESHH API response: "@ + message@,
    }
}

impl ApiError {
    /// Returns the user-facing description of the error.
    pub fn message(&self) -> (r: String)
        ensures
            r@ == api_error_text(*self),
    {
        match self {
            ApiError::Authentication { operation, status, .. } => {
                let mut r = concat2("MESHH rejected the stored token while ", operation);
                let digits = decimal_text(*status as u64);
                r.append(" (HTTP ");
                r.append(digits.as_str());
                r.append("); run `meshh login` again");
                r
            },
            ApiError::Transport { source } => concat2(
                "network error while contacting MESHH: ",
                source.message(),
            ),
            ApiError::HttpStatus { operation, status, .. } => {
                let digits = decimal_text(*status as u64);
                let mut r = concat2("MESHH API returned HTTP ", digits.as_str());
                r.append(" while ");
                r.append(operation);
                r
            },
            ApiError::InvalidResponse { message } => concat2(
                "invalid MESHH API response: ",
                message.as_str(),
            ),
        }
    }
}

} // verus!
