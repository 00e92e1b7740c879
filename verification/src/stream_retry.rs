//! What happens after the response stream of a request broke off, one action at a time.
//!
//! The program around this crate performs the action that it was handed, reports what came
//! of it, and is handed the next, until it is told what to return.

use crate::duration::Duration;
use crate::error::CodexErr;
use crate::network_availability::{NetworkAvailability, NetworkAvailabilityWait};
use crate::protocol::{EventMsg, EventMsgView};
use crate::responses_retry::{
    fallback_event, log_retry, network_returned_warning, next_retry_attempt,
    reconnecting_message, waiting_for_network_event, ResponsesStreamRequest, RetryAttempt, RetryLog,
    RetryLogView,
};
use vstd::prelude::*;

verus! {

/// How far a request has come in waiting for the network before it is tried again.
#[derive(Debug, Clone, Copy, PartialEq, Eq, Structural)]
pub enum NetworkPause {
    CheckingNetwork,
    Announcing,
    Waiting,
    Warning,
    Finished,
}

/// What a pause for the network asks for next.
#[derive(Debug, PartialEq, Eq)]
pub enum NetworkPauseAction {
    /// Find out whether the network can be reached.
    CheckNetwork,
    /// Send this event to the user.
    SendEvent(EventMsg),
    /// Wait until the network is no longer unavailable.
    WaitForNetwork,
    /// Write this warning to the log: the network was unavailable and has returned.
    WarnNetworkReturned(String),
    /// Go on with the retry.
    Proceed,
}

/// What a pause for the network asks for next, its texts taken as sequences of characters.
pub enum NetworkPauseActionView {
    CheckNetwork,
    SendEvent(EventMsgView),
    WaitForNetwork,
    WarnNetworkReturned(Seq<char>),
    Proceed,
}

impl View for NetworkPauseAction {
    type V = NetworkPauseActionView;

    open spec fn view(&self) -> NetworkPauseActionView {
        match self {
            NetworkPauseAction::CheckNetwork => NetworkPauseActionView::CheckNetwork,
            NetworkPauseAction::SendEvent(event) => NetworkPauseActionView::SendEvent(event@),
            NetworkPauseAction::WaitForNetwork => NetworkPauseActionView::WaitForNetwork,
            NetworkPauseAction::WarnNetworkReturned(message) => {
                NetworkPauseActionView::WarnNetworkReturned(message@)
            },
            NetworkPauseAction::Proceed => NetworkPauseActionView::Proceed,
        }
    }
}

/// What came of an action of a pause for the network.
#[derive(Debug, Clone, Copy, PartialEq, Eq, Structural)]
pub enum NetworkPauseEvent {
    Checked(NetworkAvailability),
    EventSent,
    NetworkWaited(NetworkAvailabilityWait),
    Warned,
}

impl NetworkPause {
    /// Whether `event` is an answer to the action that was asked for last.
    pub open spec fn expects(self, event: NetworkPauseEvent) -> bool {
        match event {
            NetworkPauseEvent::Checked(_) => self is CheckingNetwork,
            NetworkPauseEvent::EventSent => self is Announcing,
            NetworkPauseEvent::NetworkWaited(_) => self is Waiting,
            NetworkPauseEvent::Warned => self is Warning,
        }
    }

    /// What a pause becomes after `event`, and what it asks for then. The failure that the
    /// request is tried again after is `err`.
    pub open spec fn next(err: CodexErr, event: NetworkPauseEvent) -> (
        NetworkPause,
        NetworkPauseActionView,
    ) {
        match event {
            NetworkPauseEvent::Checked(availability) => if availability is Unavailable {
                (
                    NetworkPause::Announcing,
                    NetworkPauseActionView::SendEvent(crate::responses_retry::waiting_event(err)),
                )
            } else {
                (NetworkPause::Finished, NetworkPauseActionView::Proceed)
            },
            NetworkPauseEvent::EventSent => (
                NetworkPause::Waiting,
                NetworkPauseActionView::WaitForNetwork,
            ),
            NetworkPauseEvent::NetworkWaited(wait) => if wait.waited {
                (
                    NetworkPause::Warning,
                    NetworkPauseActionView::WarnNetworkReturned(
                        crate::responses_retry::NETWORK_RETURNED_MESSAGE@,
                    ),
                )
            } else {
                (NetworkPause::Finished, NetworkPauseActionView::Proceed)
            },
            NetworkPauseEvent::Warned => (NetworkPause::Finished, NetworkPauseActionView::Proceed),
        }
    }

    /// Takes what came of the last action and says what to do next.
    pub fn step(&mut self, err: &CodexErr, event: NetworkPauseEvent) -> (action: NetworkPauseAction)
        requires
            old(self).expects(event),
        ensures
            (*final(self), action@) == NetworkPause::next(*err, event),
    {
        match event {
            NetworkPauseEvent::Checked(availability) => {
                if availability != NetworkAvailability::Unavailable {
                    *self = NetworkPause::Finished;
                    return NetworkPauseAction::Proceed;
                }
                *self = NetworkPause::Announcing;
                NetworkPauseAction::SendEvent(waiting_for_network_event(err))
            },
            NetworkPauseEvent::EventSent => {
                *self = NetworkPause::Waiting;
                NetworkPauseAction::WaitForNetwork
            },
            NetworkPauseEvent::NetworkWaited(wait) => {
                if wait.waited {
                    *self = NetworkPause::Warning;
                    return NetworkPauseAction::WarnNetworkReturned(network_returned_warning());
                }
                *self = NetworkPause::Finished;
                NetworkPauseAction::Proceed
            },
            NetworkPauseEvent::Warned => {
                *self = NetworkPause::Finished;
                NetworkPauseAction::Proceed
            },
        }
    }
}

/// Starts the pause for the network that comes before a stream is tried again.
pub fn wait_for_network_before_stream_retry() -> (started: (NetworkPause, NetworkPauseAction))
    ensures
        started.0 is CheckingNetwork,
        started.1 is CheckNetwork,
{
    (NetworkPause::CheckingNetwork, NetworkPauseAction::CheckNetwork)
}

/// How far the handling of a broken stream has come. The failure goes with it until it is
/// handed out.
#[derive(Debug, PartialEq, Eq)]
pub enum StreamRetryState {
    PausingForNetwork { pause: NetworkPause, err: CodexErr },
    SwitchingTransport { err: CodexErr },
    AnnouncingFallback,
    ReadingWebsocketFlag { err: CodexErr },
    ComputingBackoff { err: CodexErr, attempt: RetryAttempt },
    Logging { err: CodexErr, attempt: RetryAttempt, delay: Duration },
    Notifying { delay: Duration },
    Sleeping,
    Finished,
}

/// What the handling of a broken stream asks for next.
#[derive(Debug, PartialEq, Eq)]
pub enum StreamRetryAction {
    /// An action of the pause for the network.
    Pause(NetworkPauseAction),
    /// Try to switch the session to its fallback transport.
    SwitchFallbackTransport,
    /// Send this event to the user.
    SendEvent(EventMsg),
    /// Find out whether the session streams responses over a websocket.
    ReadWebsocketEnabled,
    /// Compute the backoff delay of the retry of this number.
    ComputeBackoff(u64),
    /// Write this record to the log.
    LogRetry(RetryLog),
    /// Tell the user of the failure, under this message.
    NotifyStreamError { message: String, err: CodexErr },
    /// Sleep that long.
    Sleep(Duration),
    /// Return this. On success the caller tries the request again.
    Return(Result<(), CodexErr>),
}

/// What the handling of a broken stream asks for next, its texts taken as sequences of
/// characters.
pub enum StreamRetryActionView {
    Pause(NetworkPauseActionView),
    SwitchFallbackTransport,
    SendEvent(EventMsgView),
    ReadWebsocketEnabled,
    ComputeBackoff(u64),
    LogRetry(RetryLogView),
    NotifyStreamError { message: Seq<char>, err: CodexErr },
    Sleep(Duration),
    Return(Result<(), CodexErr>),
}

impl View for StreamRetryAction {
    type V = StreamRetryActionView;

    open spec fn view(&self) -> StreamRetryActionView {
        match *self {
            StreamRetryAction::Pause(action) => StreamRetryActionView::Pause(action@),
            StreamRetryAction::SwitchFallbackTransport => {
                StreamRetryActionView::SwitchFallbackTransport
            },
            StreamRetryAction::SendEvent(event) => StreamRetryActionView::SendEvent(event@),
            StreamRetryAction::ReadWebsocketEnabled => StreamRetryActionView::ReadWebsocketEnabled,
            StreamRetryAction::ComputeBackoff(retry_count) => {
                StreamRetryActionView::ComputeBackoff(retry_count)
            },
            StreamRetryAction::LogRetry(record) => StreamRetryActionView::LogRetry(record@),
            StreamRetryAction::NotifyStreamError { message, err } => {
                StreamRetryActionView::NotifyStreamError { message: message@, err }
            },
            StreamRetryAction::Sleep(delay) => StreamRetryActionView::Sleep(delay),
            StreamRetryAction::Return(result) => StreamRetryActionView::Return(result),
        }
    }
}

/// What came of an action of the handling of a broken stream.
#[derive(Debug, Clone, Copy, PartialEq, Eq)]
pub enum StreamRetryEvent {
    Pause(NetworkPauseEvent),
    /// Whether the session now uses its fallback transport and did not before.
    FallbackSwitched(bool),
    EventSent,
    WebsocketEnabled(bool),
    BackoffComputed(Duration),
    Logged,
    Notified,
    Slept,
}

/// The handling of a broken stream, while it runs.
#[derive(Debug, PartialEq, Eq)]
pub struct StreamRetry {
    pub max_retries: u64,
    pub request: ResponsesStreamRequest,
    /// The turn that the request belongs to.
    pub turn_id: String,
    /// Whether the program was built for debugging.
    pub debug_build: bool,
    pub state: StreamRetryState,
}

impl StreamRetry {
    /// Whether `event` is an answer to the action that was asked for last.
    pub open spec fn expects(self, event: StreamRetryEvent) -> bool {
        match self.state {
            StreamRetryState::PausingForNetwork { pause, .. } => {
                event matches StreamRetryEvent::Pause(pause_event) && pause.expects(pause_event)
            },
            StreamRetryState::SwitchingTransport { .. } => event is FallbackSwitched,
            StreamRetryState::AnnouncingFallback => event is EventSent,
            StreamRetryState::ReadingWebsocketFlag { .. } => event is WebsocketEnabled,
            StreamRetryState::ComputingBackoff { .. } => event is BackoffComputed,
            StreamRetryState::Logging { .. } => event is Logged,
            StreamRetryState::Notifying { .. } => event is Notified,
            StreamRetryState::Sleeping => event is Slept,
            StreamRetryState::Finished => false,
        }
    }

    /// The handling in state `state`.
    pub open spec fn at(self, state: StreamRetryState) -> StreamRetry {
        StreamRetry { state, ..self }
    }

    /// The record of the retry `attempt` after `err`, with `delay` before it, is due.
    pub open spec fn log_due(self, err: CodexErr, attempt: RetryAttempt, delay: Duration) -> (
        StreamRetry,
        StreamRetryActionView,
    ) {
        (
            self.at(StreamRetryState::Logging { err, attempt, delay }),
            StreamRetryActionView::LogRetry(
                crate::responses_retry::retry_record(
                    self.request,
                    self.turn_id@,
                    err,
                    attempt.retry_count,
                    self.max_retries,
                    delay,
                ),
            ),
        )
    }

    /// What the handling and the count of retries become after `event`, and what is asked for
    /// then.
    pub open spec fn next(self, retries: u64, event: StreamRetryEvent) -> (
        StreamRetry,
        u64,
        StreamRetryActionView,
    )
        recommends
            self.expects(event),
    {
        match (self.state, event) {
            (
                StreamRetryState::PausingForNetwork { err, .. },
                StreamRetryEvent::Pause(pause_event),
            ) => {
                let (pause, action) = NetworkPause::next(err, pause_event);
                if !(action is Proceed) {
                    (
                        self.at(StreamRetryState::PausingForNetwork { pause, err }),
                        retries,
                        StreamRetryActionView::Pause(action),
                    )
                } else if retries >= self.max_retries {
                    (
                        self.at(StreamRetryState::SwitchingTransport { err }),
                        retries,
                        StreamRetryActionView::SwitchFallbackTransport,
                    )
                } else {
                    (
                        self.at(StreamRetryState::ReadingWebsocketFlag { err }),
                        retries,
                        StreamRetryActionView::ReadWebsocketEnabled,
                    )
                }
            },
            (
                StreamRetryState::SwitchingTransport { err },
                StreamRetryEvent::FallbackSwitched(switched),
            ) => if switched {
                (
                    self.at(StreamRetryState::AnnouncingFallback),
                    retries,
                    StreamRetryActionView::SendEvent(
                        crate::responses_retry::fallback_warning(err),
                    ),
                )
            } else {
                (
                    self.at(StreamRetryState::ReadingWebsocketFlag { err }),
                    retries,
                    StreamRetryActionView::ReadWebsocketEnabled,
                )
            },
            (StreamRetryState::AnnouncingFallback, _) => (
                self.at(StreamRetryState::Finished),
                0,
                StreamRetryActionView::Return(Ok(())),
            ),
            (
                StreamRetryState::ReadingWebsocketFlag { err },
                StreamRetryEvent::WebsocketEnabled(enabled),
            ) => if retries >= self.max_retries {
                (
                    self.at(StreamRetryState::Finished),
                    retries,
                    StreamRetryActionView::Return(Err(err)),
                )
            } else {
                let retry_count = (retries + 1) as u64;
                let attempt = RetryAttempt {
                    retry_count,
                    report_error: crate::responses_retry::is_reported(
                        retry_count,
                        enabled,
                        self.debug_build,
                    ),
                };
                match err.delay_asked_for() {
                    Some(delay) => {
                        let (due, action) = self.log_due(err, attempt, delay);
                        (due, retry_count, action)
                    },
                    None => (
                        self.at(StreamRetryState::ComputingBackoff { err, attempt }),
                        retry_count,
                        StreamRetryActionView::ComputeBackoff(retry_count),
                    ),
                }
            },
            (
                StreamRetryState::ComputingBackoff { err, attempt },
                StreamRetryEvent::BackoffComputed(delay),
            ) => {
                let (due, action) = self.log_due(err, attempt, delay);
                (due, retries, action)
            },
            (StreamRetryState::Logging { err, attempt, delay }, _) => if attempt.report_error {
                (
                    self.at(StreamRetryState::Notifying { delay }),
                    retries,
                    StreamRetryActionView::NotifyStreamError {
                        message: crate::responses_retry::reconnecting_text(
                            attempt.retry_count,
                            self.max_retries,
                        ),
                        err,
                    },
                )
            } else {
                (
                    self.at(StreamRetryState::Sleeping),
                    retries,
                    StreamRetryActionView::Sleep(delay),
                )
            },
            (StreamRetryState::Notifying { delay }, _) => (
                self.at(StreamRetryState::Sleeping),
                retries,
                StreamRetryActionView::Sleep(delay),
            ),
            (_, _) => (
                self.at(StreamRetryState::Finished),
                retries,
                StreamRetryActionView::Return(Ok(())),
            ),
        }
    }

    /// Takes what came of the last action and says what to do next. The count of retries is in
    /// `retries`.
    pub fn step(self, retries: &mut u64, event: StreamRetryEvent) -> (stepped: (
        StreamRetry,
        StreamRetryAction,
    ))
        requires
            self.expects(event),
        ensures
            (stepped.0, *final(retries), stepped.1@) == self.next(*old(retries), event),
    {
        let StreamRetry { max_retries, request, turn_id, debug_build, state } = self;
        let (state, action): (StreamRetryState, StreamRetryAction) = match (state, event) {
            (
                StreamRetryState::PausingForNetwork { pause, err },
                StreamRetryEvent::Pause(pause_event),
            ) => {
                let mut pause: NetworkPause = pause;
                match pause.step(&err, pause_event) {
                    NetworkPauseAction::Proceed => if *retries >= max_retries {
                        (
                            StreamRetryState::SwitchingTransport { err },
                            StreamRetryAction::SwitchFallbackTransport,
                        )
                    } else {
                        (
                            StreamRetryState::ReadingWebsocketFlag { err },
                            StreamRetryAction::ReadWebsocketEnabled,
                        )
                    },
                    action => (
                        StreamRetryState::PausingForNetwork { pause, err },
                        StreamRetryAction::Pause(action),
                    ),
                }
            },
            (
                StreamRetryState::SwitchingTransport { err },
                StreamRetryEvent::FallbackSwitched(switched),
            ) => if switched {
                (
                    StreamRetryState::AnnouncingFallback,
                    StreamRetryAction::SendEvent(fallback_event(&err)),
                )
            } else {
                (
                    StreamRetryState::ReadingWebsocketFlag { err },
                    StreamRetryAction::ReadWebsocketEnabled,
                )
            },
            (StreamRetryState::AnnouncingFallback, _) => {
                *retries = 0;
                (StreamRetryState::Finished, StreamRetryAction::Return(Ok(())))
            },
            (
                StreamRetryState::ReadingWebsocketFlag { err },
                StreamRetryEvent::WebsocketEnabled(enabled),
            ) => match next_retry_attempt(retries, max_retries, enabled, debug_build) {
                Some(attempt) => match err.requested_delay() {
                    Some(delay) => {
                        let record: RetryLog = log_retry(
                            request,
                            turn_id.as_str(),
                            &err,
                            attempt.retry_count,
                            max_retries,
                            delay,
                        );
                        (
                            StreamRetryState::Logging { err, attempt, delay },
                            StreamRetryAction::LogRetry(record),
                        )
                    },
                    None => (
                        StreamRetryState::ComputingBackoff { err, attempt },
                        StreamRetryAction::ComputeBackoff(attempt.retry_count),
                    ),
                },
                None => (StreamRetryState::Finished, StreamRetryAction::Return(Err(err))),
            },
            (
                StreamRetryState::ComputingBackoff { err, attempt },
                StreamRetryEvent::BackoffComputed(delay),
            ) => {
                let record: RetryLog = log_retry(
                    request,
                    turn_id.as_str(),
                    &err,
                    attempt.retry_count,
                    max_retries,
                    delay,
                );
                (
                    StreamRetryState::Logging { err, attempt, delay },
                    StreamRetryAction::LogRetry(record),
                )
            },
            (StreamRetryState::Logging { err, attempt, delay }, _) => if attempt.report_error {
                let message: String = reconnecting_message(attempt.retry_count, max_retries);
                (
                    StreamRetryState::Notifying { delay },
                    StreamRetryAction::NotifyStreamError { message, err },
                )
            } else {
                (StreamRetryState::Sleeping, StreamRetryAction::Sleep(delay))
            },
            (StreamRetryState::Notifying { delay }, _) => (
                StreamRetryState::Sleeping,
                StreamRetryAction::Sleep(delay),
            ),
            (_, _) => (StreamRetryState::Finished, StreamRetryAction::Return(Ok(()))),
        };
        (StreamRetry { max_retries, request, turn_id, debug_build, state }, action)
    }
}

/// Starts the handling of the broken stream of `request`, which belongs to turn `turn_id` and
/// failed with `err`.
///
/// It ends with `Return(Ok(()))` where the caller should try the request again, and hands the
/// failure back where it should not.
pub fn handle_retryable_response_stream_error(
    max_retries: u64,
    err: CodexErr,
    request: ResponsesStreamRequest,
    turn_id: String,
    debug_build: bool,
) -> (started: (StreamRetry, StreamRetryAction))
    ensures
        started.0 == started_handling(max_retries, err, request, turn_id, debug_build),
        started.1@ == StreamRetryActionView::Pause(NetworkPauseActionView::CheckNetwork),
{
    let (pause, action): (NetworkPause, NetworkPauseAction) =
        wait_for_network_before_stream_retry();
    let state: StreamRetryState = StreamRetryState::PausingForNetwork { pause, err };
    (
        StreamRetry { max_retries, request, turn_id, debug_build, state },
        StreamRetryAction::Pause(action),
    )
}

/// The handling of a broken stream, before anything was done.
pub open spec fn started_handling(
    max_retries: u64,
    err: CodexErr,
    request: ResponsesStreamRequest,
    turn_id: String,
    debug_build: bool,
) -> StreamRetry {
    StreamRetry {
        max_retries,
        request,
        turn_id,
        debug_build,
        state: StreamRetryState::PausingForNetwork { pause: NetworkPause::CheckingNetwork, err },
    }
}

} // verus!
