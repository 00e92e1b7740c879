//! The events that a session sends to its user.

use vstd::prelude::*;

verus! {

/// What kind of failure an event reports.
#[derive(Debug, Clone, Copy, PartialEq, Eq)]
pub enum CodexErrorInfo {
    /// The response stream broke off.
    ResponseStreamDisconnected { http_status_code: Option<u16> },
}

/// The stream failed and is about to be tried again.
#[derive(Debug, PartialEq, Eq)]
pub struct StreamErrorEvent {
    pub message: String,
    pub codex_error_info: Option<CodexErrorInfo>,
    pub additional_details: Option<String>,
}

/// Something that the user should know of and that stops nothing.
#[derive(Debug, PartialEq, Eq)]
pub struct WarningEvent {
    pub message: String,
}

/// An event of a session.
#[derive(Debug, PartialEq, Eq)]
pub enum EventMsg {
    StreamError(StreamErrorEvent),
    Warning(WarningEvent),
}

/// What an event says, its texts taken as sequences of characters.
pub enum EventMsgView {
    StreamError {
        message: Seq<char>,
        codex_error_info: Option<CodexErrorInfo>,
        additional_details: Option<Seq<char>>,
    },
    Warning { message: Seq<char> },
}

impl View for EventMsg {
    type V = EventMsgView;

    open spec fn view(&self) -> EventMsgView {
        match self {
            EventMsg::StreamError(event) => EventMsgView::StreamError {
                message: event.message@,
                codex_error_info: event.codex_error_info,
                additional_details: match event.additional_details {
                    Some(details) => Some(details@),
                    None => None,
                },
            },
            EventMsg::Warning(event) => EventMsgView::Warning { message: event.message@ },
        }
    }
}

/// The view of an event keeps everything that the event says.
pub proof fn law_view_of_an_event(
    message: String,
    codex_error_info: Option<CodexErrorInfo>,
    details: String,
)
    ensures
        EventMsg::StreamError(
            (StreamErrorEvent {
                message,
                codex_error_info,
                additional_details: Some(details),
            }),
        )@ == (EventMsgView::StreamError {
            message: message@,
            codex_error_info,
            additional_details: Some(details@),
        }),
        EventMsg::StreamError(
            (StreamErrorEvent { message, codex_error_info, additional_details: None }),
        )@ == (EventMsgView::StreamError {
            message: message@,
            codex_error_info,
            additional_details: None,
        }),
        EventMsg::Warning((WarningEvent { message }))@ == (EventMsgView::Warning {
            message: message@,
        }),
{
}

} // verus!
