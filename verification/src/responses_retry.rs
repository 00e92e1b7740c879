//! Retry and transport fallback decisions for requests whose response stream broke off.

use crate::duration::Duration;
use crate::error::{CodexErr, ErrorReport};
use crate::protocol::{CodexErrorInfo, EventMsg, EventMsgView, StreamErrorEvent, WarningEvent};
use crate::text;
use vstd::prelude::*;

verus! {

/// What the user reads while the network is waited for.
pub const WAITING_FOR_NETWORK_MESSAGE: &'static str = "Waiting for network connection...";

/// What the log says once the network has returned.
pub const NETWORK_RETURNED_MESSAGE: &'static str =
    "local network was unavailable; retrying response stream after network returned";

/// What the user reads before the number of a retry.
pub const RECONNECTING_PREFIX: &'static str = "Reconnecting... ";

/// What the user reads, before the failure, when another transport takes over.
pub const FALLBACK_PREFIX: &'static str = "Falling back from WebSockets to HTTPS transport. ";

/// What the stream was opened for.
#[derive(Debug, Clone, Copy, PartialEq, Eq, Structural)]
pub enum ResponsesStreamRequest {
    Sampling,
    RemoteCompactionV2,
}

/// One more try of a request.
#[derive(Debug, Clone, Copy, PartialEq, Eq, Structural)]
pub struct RetryAttempt {
    /// The number of this retry. The first is 1.
    pub retry_count: u64,
    /// Whether the user is told of it.
    pub report_error: bool,
}

/// Whether the user is told of retry number `retry_count`: of each but the first on a
/// websocket, and in a debug build of that too.
pub open spec fn is_reported(
    retry_count: u64,
    responses_websocket_enabled: bool,
    debug_build: bool,
) -> bool {
    retry_count > 1 || debug_build || !responses_websocket_enabled
}

/// Counts one more retry in `retries`, as long as fewer than `max_retries` were made.
///
/// In a release build the first retry on a websocket is not reported, which spares the user
/// the noise of connections that come back at once; in a debug build every retry is.
pub fn next_retry_attempt(
    retries: &mut u64,
    max_retries: u64,
    responses_websocket_enabled: bool,
    debug_build: bool,
) -> (attempt: Option<RetryAttempt>)
    ensures
        *old(retries) >= max_retries ==> attempt is None && *final(retries) == *old(retries),
        *old(retries) < max_retries ==> {
            &&& *final(retries) == *old(retries) + 1
            &&& attempt == Some(
                RetryAttempt {
                    retry_count: *final(retries),
                    report_error: *final(retries) > 1 || debug_build
                        || !responses_websocket_enabled,
                },
            )
        },
{
    if *retries >= max_retries {
        return None;
    }
    *retries = *retries + 1;
    let retry_count: u64 = *retries;
    Some(
        RetryAttempt {
            retry_count,
            report_error: retry_count > 1 || debug_build || !responses_websocket_enabled,
        },
    )
}

/// The event that tells the user that the network is waited for, after failure `err`.
pub open spec fn waiting_event(err: CodexErr) -> EventMsgView {
    EventMsgView::StreamError {
        message: WAITING_FOR_NETWORK_MESSAGE@,
        codex_error_info: Some(
            CodexErrorInfo::ResponseStreamDisconnected { http_status_code: err.status_code() },
        ),
        additional_details: Some(err.text()),
    }
}

/// The event that tells the user that the network is waited for, after failure `err`.
pub fn waiting_for_network_event(err: &CodexErr) -> (event: EventMsg)
    ensures
        event@ == waiting_event(*err),
{
    EventMsg::StreamError(
        StreamErrorEvent {
            message: String::from_str(WAITING_FOR_NETWORK_MESSAGE),
            codex_error_info: Some(
                CodexErrorInfo::ResponseStreamDisconnected {
                    http_status_code: err.http_status_code_value(),
                },
            ),
            additional_details: Some(err.to_string()),
        },
    )
}

/// What the log says once the network has returned.
pub fn network_returned_warning() -> (message: String)
    ensures
        message@ == NETWORK_RETURNED_MESSAGE@,
{
    String::from_str(NETWORK_RETURNED_MESSAGE)
}

/// The event that tells the user that another transport takes over, after failure `err`.
pub open spec fn fallback_warning(err: CodexErr) -> EventMsgView {
    EventMsgView::Warning { message: FALLBACK_PREFIX@ + err.text_with_causes() }
}

/// The event that tells the user that another transport takes over, after failure `err`.
pub fn fallback_event(err: &CodexErr) -> (event: EventMsg)
    ensures
        event@ == fallback_warning(*err),
{
    let mut message: String = String::from_str(FALLBACK_PREFIX);
    message.append(err.to_string_with_causes().as_str());
    EventMsg::Warning(WarningEvent { message })
}

/// What the user reads of retry number `retry_count` of `max_retries`.
pub open spec fn reconnecting_text(retry_count: u64, max_retries: u64) -> Seq<char> {
    RECONNECTING_PREFIX@ + text::decimal(retry_count as nat) + "/"@ + text::decimal(
        max_retries as nat,
    )
}

/// What the user reads of retry number `retry_count` of `max_retries`.
pub fn reconnecting_message(retry_count: u64, max_retries: u64) -> (message: String)
    ensures
        message@ == reconnecting_text(retry_count, max_retries),
{
    let mut message: String = String::from_str(RECONNECTING_PREFIX);
    text::push_decimal(&mut message, retry_count);
    message.append("/");
    text::push_decimal(&mut message, max_retries);
    message
}

/// What the log says of a retry of a sampling request, before the number of the retry.
pub const SAMPLING_RETRY_PREFIX: &'static str =
    "stream disconnected - retrying sampling request (";

/// What the log says of a retry of a compaction.
pub const COMPACTION_RETRY_MESSAGE: &'static str =
    "remote compaction v2 stream failed; retrying request after delay";

/// What the log says of retry number `retries` of `max_retries` of a sampling request, after a
/// delay that reads `delay`.
pub open spec fn sampling_retry_text(
    retries: u64,
    max_retries: u64,
    delay: Seq<char>,
) -> Seq<char> {
    SAMPLING_RETRY_PREFIX@ + text::decimal(retries as nat) + "/"@ + text::decimal(
        max_retries as nat,
    ) + " in "@ + delay + ")..."@
}

/// What the log says of retry number `retries` of `max_retries` of a sampling request, after a
/// delay that reads `delay`.
pub fn sampling_retry_message(retries: u64, max_retries: u64, delay: &str) -> (message: String)
    ensures
        message@ == sampling_retry_text(retries, max_retries, delay@),
{
    let mut message: String = String::from_str(SAMPLING_RETRY_PREFIX);
    text::push_decimal(&mut message, retries);
    message.append("/");
    text::push_decimal(&mut message, max_retries);
    message.append(" in ");
    message.append(delay);
    message.append(")...");
    message
}

/// The warning that the log gets of a retry: a message, and the fields that go with it.
#[derive(Debug, PartialEq, Eq)]
pub enum RetryLog {
    Sampling { message: String },
    RemoteCompactionV2 {
        message: String,
        turn_id: String,
        retries: u64,
        max_retries: u64,
        compact_error: String,
    },
}

/// The warning that the log gets of a retry, its texts taken as sequences of characters.
pub enum RetryLogView {
    Sampling { message: Seq<char> },
    RemoteCompactionV2 {
        message: Seq<char>,
        turn_id: Seq<char>,
        retries: u64,
        max_retries: u64,
        compact_error: Seq<char>,
    },
}

impl View for RetryLog {
    type V = RetryLogView;

    open spec fn view(&self) -> RetryLogView {
        match *self {
            RetryLog::Sampling { message } => RetryLogView::Sampling { message: message@ },
            RetryLog::RemoteCompactionV2 {
                message,
                turn_id,
                retries,
                max_retries,
                compact_error,
            } => RetryLogView::RemoteCompactionV2 {
                message: message@,
                turn_id: turn_id@,
                retries,
                max_retries,
                compact_error: compact_error@,
            },
        }
    }
}

/// The warning of a retry: for a sampling request its numbers and its delay in one sentence,
/// for a compaction a sentence with the turn, the numbers and the failure beside it.
pub open spec fn retry_record(
    request: ResponsesStreamRequest,
    turn_id: Seq<char>,
    err: CodexErr,
    retries: u64,
    max_retries: u64,
    delay: Duration,
) -> RetryLogView {
    match request {
        ResponsesStreamRequest::Sampling => RetryLogView::Sampling {
            message: sampling_retry_text(retries, max_retries, delay.text()),
        },
        ResponsesStreamRequest::RemoteCompactionV2 => RetryLogView::RemoteCompactionV2 {
            message: COMPACTION_RETRY_MESSAGE@,
            turn_id,
            retries,
            max_retries,
            compact_error: err.text(),
        },
    }
}

/// The warning of a retry of `request`, which belongs to turn `turn_id`, after failure `err`.
pub fn log_retry(
    request: ResponsesStreamRequest,
    turn_id: &str,
    err: &CodexErr,
    retries: u64,
    max_retries: u64,
    delay: Duration,
) -> (record: RetryLog)
    ensures
        record@ == retry_record(request, turn_id@, *err, retries, max_retries, delay),
{
    match request {
        ResponsesStreamRequest::Sampling => RetryLog::Sampling {
            message: sampling_retry_message(
                retries,
                max_retries,
                delay.to_debug_string().as_str(),
            ),
        },
        ResponsesStreamRequest::RemoteCompactionV2 => RetryLog::RemoteCompactionV2 {
            message: String::from_str(COMPACTION_RETRY_MESSAGE),
            turn_id: String::from_str(turn_id),
            retries,
            max_retries,
            compact_error: err.to_string(),
        },
    }
}

/// A retry is kept from the user exactly where it is the first, on a websocket, in a release
/// build.
pub proof fn law_retry_kept_from_the_user(retry_count: u64, websocket: bool, debug_build: bool)
    requires
        retry_count > 0,
    ensures
        !is_reported(retry_count, websocket, debug_build) <==> retry_count == 1 && websocket
            && !debug_build,
{
}

/// While the network is waited for, the user reads so, with the failure in words beside it and
/// the status code of the failure, where it has one.
pub proof fn law_event_of_a_wait(
    reason: String,
    asked: Option<Duration>,
    report: ErrorReport,
    of_stream: EventMsg,
    of_report: EventMsg,
)
    requires
        call_ensures(waiting_for_network_event, (&(CodexErr::Stream(reason, asked)),), of_stream),
        call_ensures(waiting_for_network_event, (&(CodexErr::Other(report)),), of_report),
    ensures
        of_stream matches EventMsg::StreamError(event) && {
            &&& event.message@ == "Waiting for network connection..."@
            &&& event.codex_error_info == Some(
                CodexErrorInfo::ResponseStreamDisconnected { http_status_code: None },
            )
            &&& event.additional_details matches Some(details) && details@
                == "stream disconnected before completion: "@ + reason@
        },
        of_report matches EventMsg::StreamError(event) && {
            &&& event.message@ == "Waiting for network connection..."@
            &&& event.codex_error_info == Some(
                CodexErrorInfo::ResponseStreamDisconnected {
                    http_status_code: report.http_status_code,
                },
            )
            &&& event.additional_details matches Some(details) && details@ == report.message@
        },
{
}

/// When another transport takes over, the user reads so, with the failure and its causes behind
/// it.
pub proof fn law_event_of_a_fallback(
    reason: String,
    asked: Option<Duration>,
    report: ErrorReport,
    of_stream: EventMsg,
    of_report: EventMsg,
)
    requires
        call_ensures(fallback_event, (&(CodexErr::Stream(reason, asked)),), of_stream),
        call_ensures(fallback_event, (&(CodexErr::Other(report)),), of_report),
    ensures
        of_stream matches EventMsg::Warning(event) && event.message@
            == "Falling back from WebSockets to HTTPS transport. "@ + (
        "stream disconnected before completion: "@ + reason@),
        of_report matches EventMsg::Warning(event) && event.message@
            == "Falling back from WebSockets to HTTPS transport. "@ + report.message_with_causes@,
{
}

/// The messages of a retry name its number and the limit, in this order and with a slash between
/// them. What the log says once the network has returned is always the same.
pub proof fn law_messages_of_a_retry(
    retry_count: u64,
    max_retries: u64,
    delay: &str,
    for_user: String,
    for_log: String,
    returned: String,
)
    requires
        call_ensures(reconnecting_message, (retry_count, max_retries), for_user),
        call_ensures(sampling_retry_message, (retry_count, max_retries, delay), for_log),
        call_ensures(network_returned_warning, (), returned),
    ensures
        for_user@ == "Reconnecting... "@ + text::decimal(retry_count as nat) + "/"@
            + text::decimal(max_retries as nat),
        for_log@ == "stream disconnected - retrying sampling request ("@ + text::decimal(
            retry_count as nat,
        ) + "/"@ + text::decimal(max_retries as nat) + " in "@ + delay@ + ")..."@,
        returned@
            == "local network was unavailable; retrying response stream after network returned"@,
{
}

/// The log gets the message of a sampling request with the delay in the standard library's words,
/// and for a compaction a fixed message with the turn, the two numbers and the failure beside it.
pub proof fn law_log_of_a_retry(
    turn_id: &str,
    reason: String,
    asked: Option<Duration>,
    report: ErrorReport,
    retries: u64,
    max_retries: u64,
    secs: u64,
    nanos: u32,
    delay: Duration,
    sampling: RetryLog,
    compaction: RetryLog,
    reported: RetryLog,
)
    requires
        nanos < 1_000_000_000,
        call_ensures(Duration::new, (secs, nanos), delay),
        call_ensures(
            log_retry,
            (
                ResponsesStreamRequest::Sampling,
                turn_id,
                &(CodexErr::Stream(reason, asked)),
                retries,
                max_retries,
                delay,
            ),
            sampling,
        ),
        call_ensures(
            log_retry,
            (
                ResponsesStreamRequest::RemoteCompactionV2,
                turn_id,
                &(CodexErr::Stream(reason, asked)),
                retries,
                max_retries,
                delay,
            ),
            compaction,
        ),
        call_ensures(
            log_retry,
            (
                ResponsesStreamRequest::RemoteCompactionV2,
                turn_id,
                &(CodexErr::Other(report)),
                retries,
                max_retries,
                delay,
            ),
            reported,
        ),
    ensures
        sampling matches RetryLog::Sampling { message } && message@
            == "stream disconnected - retrying sampling request ("@ + text::decimal(
            retries as nat,
        ) + "/"@ + text::decimal(max_retries as nat) + " in "@ + crate::duration::debug_text(
            secs,
            nanos,
        ) + ")..."@,
        compaction matches RetryLog::RemoteCompactionV2 {
            message,
            turn_id: turn,
            retries: number,
            max_retries: limit,
            compact_error,
        } && {
            &&& message@ == "remote compaction v2 stream failed; retrying request after delay"@
            &&& turn@ == turn_id@
            &&& number == retries
            &&& limit == max_retries
            &&& compact_error@ == "stream disconnected before completion: "@ + reason@
        },
        reported matches RetryLog::RemoteCompactionV2 {
            message,
            turn_id: turn,
            retries: number,
            max_retries: limit,
            compact_error,
        } && {
            &&& message@ == "remote compaction v2 stream failed; retrying request after delay"@
            &&& turn@ == turn_id@
            &&& number == retries
            &&& limit == max_retries
            &&& compact_error@ == report.message@
        },
{
    crate::duration::lemma_text_of_parts(secs, nanos, delay);
}

} // verus!
