//! The failures that the retry rules look at.

use crate::duration::Duration;
use vstd::prelude::*;

verus! {

/// The first status code that says the server failed.
pub const FIRST_SERVER_ERROR: u16 = 500;

/// The last status code that says the server failed.
pub const LAST_SERVER_ERROR: u16 = 599;

/// The status code of a server that asks for fewer requests.
pub const TOO_MANY_REQUESTS: u16 = 429;

/// Why a request to the model provider failed.
#[derive(Debug, PartialEq, Eq)]
pub enum TransportError {
    /// The server answered with a status that is not a success.
    Http { status: u16, body: Option<String> },
    /// The attempts were used up.
    RetryLimit,
    /// No answer came in time.
    Timeout,
    /// The connection failed.
    Network(String),
    /// The request could not be built.
    Build(String),
}

/// Whether `status` says that the server failed.
pub open spec fn server_error_status(status: u16) -> bool {
    FIRST_SERVER_ERROR <= status <= LAST_SERVER_ERROR
}

/// Whether `status` says that the server failed.
pub fn is_server_error(status: u16) -> (failed: bool)
    ensures
        failed == server_error_status(status),
{
    FIRST_SERVER_ERROR <= status && status <= LAST_SERVER_ERROR
}

/// What is known of a failure that is not a broken stream.
#[derive(Debug, PartialEq, Eq)]
pub struct ErrorReport {
    /// The number by which the caller finds the failure itself again.
    pub id: u64,
    /// The failure in plain words.
    pub message: String,
    /// The failure in plain words, with its causes.
    pub message_with_causes: String,
    /// The status code of the answer that reported the failure, where there was one.
    pub http_status_code: Option<u16>,
}

/// Why a turn with the model failed.
#[derive(Debug, PartialEq, Eq)]
pub enum CodexErr {
    /// The response stream broke off. The server may have named the delay to keep before
    /// the next try.
    Stream(String, Option<Duration>),
    /// Any other failure.
    Other(ErrorReport),
}

/// What a message on a broken stream starts with.
pub const STREAM_MESSAGE_PREFIX: &'static str = "stream disconnected before completion: ";

impl CodexErr {
    /// The failure in plain words.
    pub open spec fn text(self) -> Seq<char> {
        match self {
            CodexErr::Stream(reason, _) => STREAM_MESSAGE_PREFIX@ + reason@,
            CodexErr::Other(report) => report.message@,
        }
    }

    /// The failure in plain words, with its causes.
    pub open spec fn text_with_causes(self) -> Seq<char> {
        match self {
            CodexErr::Stream(reason, _) => STREAM_MESSAGE_PREFIX@ + reason@,
            CodexErr::Other(report) => report.message_with_causes@,
        }
    }

    /// The status code of the answer that reported the failure, where there was one.
    pub open spec fn status_code(self) -> Option<u16> {
        match self {
            CodexErr::Stream(_, _) => None,
            CodexErr::Other(report) => report.http_status_code,
        }
    }

    /// The delay that the server asked for, where it did.
    pub open spec fn delay_asked_for(self) -> Option<Duration> {
        match self {
            CodexErr::Stream(_, requested_delay) => requested_delay,
            CodexErr::Other(_) => None,
        }
    }

    /// The failure in plain words.
    pub fn to_string(&self) -> (message: String)
        ensures
            message@ == self.text(),
    {
        match self {
            CodexErr::Stream(reason, _) => {
                let mut message: String = String::from_str(STREAM_MESSAGE_PREFIX);
                message.append(reason.as_str());
                message
            },
            CodexErr::Other(report) => report.message.clone(),
        }
    }

    /// The failure in plain words, with its causes. A broken stream has none to add.
    pub fn to_string_with_causes(&self) -> (message: String)
        ensures
            message@ == self.text_with_causes(),
    {
        match self {
            CodexErr::Stream(_, _) => self.to_string(),
            CodexErr::Other(report) => report.message_with_causes.clone(),
        }
    }

    /// The status code of the answer that reported the failure, where there was one.
    pub fn http_status_code_value(&self) -> (status: Option<u16>)
        ensures
            status == self.status_code(),
    {
        match self {
            CodexErr::Stream(_, _) => None,
            CodexErr::Other(report) => report.http_status_code,
        }
    }

    /// The delay that the server asked for, where it did.
    pub fn requested_delay(&self) -> (delay: Option<Duration>)
        ensures
            delay == self.delay_asked_for(),
    {
        match self {
            CodexErr::Stream(_, requested_delay) => *requested_delay,
            CodexErr::Other(_) => None,
        }
    }
}

/// A server failed exactly where its status is one of the five hundreds.
pub proof fn law_server_failed(status: u16, failed: bool)
    requires
        call_ensures(is_server_error, (status,), failed),
    ensures
        failed <==> 500 <= status <= 599,
{
}

/// What a broken stream carries comes out of it again: the delay that the server asked for, and
/// none where it asked for none; its reason behind a fixed sentence; and no status code.
pub proof fn law_broken_stream(
    reason: String,
    asked: Option<Duration>,
    delay: Option<Duration>,
    message: String,
    message_with_causes: String,
    status: Option<u16>,
)
    requires
        call_ensures(CodexErr::requested_delay, (&(CodexErr::Stream(reason, asked)),), delay),
        call_ensures(CodexErr::to_string, (&(CodexErr::Stream(reason, asked)),), message),
        call_ensures(
            CodexErr::to_string_with_causes,
            (&(CodexErr::Stream(reason, asked)),),
            message_with_causes,
        ),
        call_ensures(
            CodexErr::http_status_code_value,
            (&(CodexErr::Stream(reason, asked)),),
            status,
        ),
    ensures
        delay == asked,
        CodexErr::Stream(reason, asked).delay_asked_for() == asked,
        message@ == "stream disconnected before completion: "@ + reason@,
        message_with_causes@ == message@,
        CodexErr::Stream(reason, asked).text() == message@,
        CodexErr::Stream(reason, asked).text_with_causes() == message@,
        status is None,
        CodexErr::Stream(reason, asked).status_code() is None,
{
}

/// What a report carries comes out of it again: its two texts and its status code. No delay is
/// asked for by it.
pub proof fn law_reported_failure(
    report: ErrorReport,
    delay: Option<Duration>,
    message: String,
    message_with_causes: String,
    status: Option<u16>,
)
    requires
        call_ensures(CodexErr::requested_delay, (&(CodexErr::Other(report)),), delay),
        call_ensures(CodexErr::to_string, (&(CodexErr::Other(report)),), message),
        call_ensures(
            CodexErr::to_string_with_causes,
            (&(CodexErr::Other(report)),),
            message_with_causes,
        ),
        call_ensures(CodexErr::http_status_code_value, (&(CodexErr::Other(report)),), status),
    ensures
        delay is None,
        CodexErr::Other(report).delay_asked_for() is None,
        message@ == report.message@,
        CodexErr::Other(report).text() == report.message@,
        message_with_causes@ == report.message_with_causes@,
        CodexErr::Other(report).text_with_causes() == report.message_with_causes@,
        status == report.http_status_code,
        CodexErr::Other(report).status_code() == report.http_status_code,
{
}

} // verus!
