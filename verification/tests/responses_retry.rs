use codex_retry::duration::Duration;
use codex_retry::error::{CodexErr, ErrorReport};
use codex_retry::network_availability::{NetworkAvailability, NetworkAvailabilityWait};
use codex_retry::protocol::{CodexErrorInfo, EventMsg, StreamErrorEvent, WarningEvent};
use codex_retry::responses_retry::{
    fallback_event, log_retry, network_returned_warning, next_retry_attempt,
    reconnecting_message, sampling_retry_message, waiting_for_network_event,
    ResponsesStreamRequest, RetryAttempt, RetryLog, WAITING_FOR_NETWORK_MESSAGE,
};
use codex_retry::stream_retry::{
    handle_retryable_response_stream_error, wait_for_network_before_stream_retry, NetworkPause,
    NetworkPauseAction, NetworkPauseEvent, StreamRetryAction, StreamRetryEvent,
};

fn broken_stream(requested_delay: Option<Duration>) -> CodexErr {
    CodexErr::Stream("network error".to_string(), requested_delay)
}

fn server_failure() -> CodexErr {
    CodexErr::Other(ErrorReport {
        id: 17,
        message: "unexpected status 503".to_string(),
        message_with_causes: "unexpected status 503: overloaded".to_string(),
        http_status_code: Some(503),
    })
}

/// The warning of a retry of a sampling request.
fn sampling_log(retries: u64, max_retries: u64, delay: &str) -> RetryLog {
    RetryLog::Sampling {
        message: format!(
            "stream disconnected - retrying sampling request ({retries}/{max_retries} in {delay})..."
        ),
    }
}

/// The warning of a retry of a compaction of turn `turn-1`.
fn compaction_log(retries: u64, max_retries: u64, compact_error: &str) -> RetryLog {
    RetryLog::RemoteCompactionV2 {
        message: "remote compaction v2 stream failed; retrying request after delay".to_string(),
        turn_id: "turn-1".to_string(),
        retries,
        max_retries,
        compact_error: compact_error.to_string(),
    }
}

/// What surrounds the handling of a broken stream.
#[derive(Clone, Copy)]
struct World {
    availability: NetworkAvailability,
    waited: bool,
    can_switch: bool,
    websocket: bool,
    debug_build: bool,
}

const CALM: World = World {
    availability: NetworkAvailability::Available,
    waited: false,
    can_switch: false,
    websocket: true,
    debug_build: false,
};

/// Handles `err` in `world`, where the backoff of retry `n` is `100 * n` milliseconds. Gives
/// back the actions, of which the last says what is returned.
fn handle(
    retries: &mut u64,
    max_retries: u64,
    err: CodexErr,
    request: ResponsesStreamRequest,
    world: World,
) -> Vec<StreamRetryAction> {
    let (mut handling, mut action) = handle_retryable_response_stream_error(
        max_retries,
        err,
        request,
        "turn-1".to_string(),
        world.debug_build,
    );
    let mut actions: Vec<StreamRetryAction> = Vec::new();
    loop {
        let event = match &action {
            StreamRetryAction::Pause(NetworkPauseAction::CheckNetwork) => {
                StreamRetryEvent::Pause(NetworkPauseEvent::Checked(world.availability))
            }
            StreamRetryAction::Pause(NetworkPauseAction::SendEvent(_)) => {
                StreamRetryEvent::Pause(NetworkPauseEvent::EventSent)
            }
            StreamRetryAction::Pause(NetworkPauseAction::WaitForNetwork) => {
                StreamRetryEvent::Pause(NetworkPauseEvent::NetworkWaited(NetworkAvailabilityWait {
                    availability: NetworkAvailability::Available,
                    waited: world.waited,
                }))
            }
            StreamRetryAction::Pause(NetworkPauseAction::WarnNetworkReturned(_)) => {
                StreamRetryEvent::Pause(NetworkPauseEvent::Warned)
            }
            StreamRetryAction::Pause(NetworkPauseAction::Proceed) => {
                panic!("the end of the pause is not an action of its own")
            }
            StreamRetryAction::SwitchFallbackTransport => {
                StreamRetryEvent::FallbackSwitched(world.can_switch)
            }
            StreamRetryAction::SendEvent(_) => StreamRetryEvent::EventSent,
            StreamRetryAction::ReadWebsocketEnabled => {
                StreamRetryEvent::WebsocketEnabled(world.websocket)
            }
            StreamRetryAction::ComputeBackoff(n) => {
                StreamRetryEvent::BackoffComputed(Duration::from_millis(100 * n))
            }
            StreamRetryAction::LogRetry(_) => StreamRetryEvent::Logged,
            StreamRetryAction::NotifyStreamError { .. } => StreamRetryEvent::Notified,
            StreamRetryAction::Sleep(_) => StreamRetryEvent::Slept,
            StreamRetryAction::Return(_) => {
                actions.push(action);
                return actions;
            }
        };
        actions.push(action);
        (handling, action) = handling.step(retries, event);
    }
}

#[test]
fn next_retry_attempt_increments_retry_counter() {
    for debug_build in [false, true] {
        let mut retries = 0;

        assert_eq!(
            next_retry_attempt(
                &mut retries,
                2,
                /*responses_websocket_enabled*/ false,
                debug_build
            ),
            Some(RetryAttempt {
                retry_count: 1,
                report_error: true,
            })
        );
        assert_eq!(retries, 1);

        assert_eq!(
            next_retry_attempt(
                &mut retries,
                2,
                /*responses_websocket_enabled*/ true,
                debug_build
            ),
            Some(RetryAttempt {
                retry_count: 2,
                report_error: true,
            })
        );
        assert_eq!(retries, 2);

        assert_eq!(
            next_retry_attempt(
                &mut retries,
                2,
                /*responses_websocket_enabled*/ true,
                debug_build
            ),
            None
        );
        assert_eq!(retries, 2);
    }
}

#[test]
fn next_retry_attempt_hides_first_websocket_retry_in_release() {
    for debug_build in [false, true] {
        let mut retries = 0;

        assert_eq!(
            next_retry_attempt(
                &mut retries,
                2,
                /*responses_websocket_enabled*/ true,
                debug_build
            ),
            Some(RetryAttempt {
                retry_count: 1,
                report_error: debug_build,
            })
        );
    }
}

#[test]
fn next_retry_attempt_above_the_limit_changes_nothing() {
    let mut retries = 5;
    assert_eq!(next_retry_attempt(&mut retries, 2, false, true), None);
    assert_eq!(retries, 5);
    let mut retries = u64::MAX - 1;
    assert_eq!(
        next_retry_attempt(&mut retries, u64::MAX, true, false),
        Some(RetryAttempt { retry_count: u64::MAX, report_error: true })
    );
    assert_eq!(next_retry_attempt(&mut retries, u64::MAX, true, false), None);
}

#[test]
fn waiting_for_network_event_uses_retry_status_message() {
    let err = CodexErr::Stream("network error".to_string(), None);

    let EventMsg::StreamError(StreamErrorEvent {
        message,
        additional_details,
        codex_error_info,
    }) = waiting_for_network_event(&err)
    else {
        panic!("expected stream error event");
    };

    assert_eq!(message, WAITING_FOR_NETWORK_MESSAGE);
    assert_eq!(
        additional_details,
        Some("stream disconnected before completion: network error".to_string())
    );
    assert_eq!(
        codex_error_info,
        Some(CodexErrorInfo::ResponseStreamDisconnected {
            http_status_code: None
        })
    );
}

#[test]
fn waiting_for_network_event_carries_the_status_code() {
    assert_eq!(
        waiting_for_network_event(&server_failure()),
        EventMsg::StreamError(StreamErrorEvent {
            message: "Waiting for network connection...".to_string(),
            codex_error_info: Some(CodexErrorInfo::ResponseStreamDisconnected {
                http_status_code: Some(503)
            }),
            additional_details: Some("unexpected status 503".to_string()),
        })
    );
}

#[test]
fn messages_for_the_user() {
    assert_eq!(reconnecting_message(3, 15), "Reconnecting... 3/15");
    assert_eq!(
        fallback_event(&broken_stream(None)),
        EventMsg::Warning(WarningEvent {
            message: "Falling back from WebSockets to HTTPS transport. \
                      stream disconnected before completion: network error"
                .to_string()
        })
    );
    assert_eq!(
        fallback_event(&server_failure()),
        EventMsg::Warning(WarningEvent {
            message: "Falling back from WebSockets to HTTPS transport. \
                      unexpected status 503: overloaded"
                .to_string()
        })
    );
}

#[test]
fn log_records_go_by_request() {
    let delay = Duration::from_millis(1_500);
    assert_eq!(
        log_retry(ResponsesStreamRequest::Sampling, "turn-1", &broken_stream(None), 1, 5, delay),
        sampling_log(1, 5, "1.5s")
    );
    assert_eq!(
        log_retry(
            ResponsesStreamRequest::RemoteCompactionV2,
            "turn-1",
            &server_failure(),
            2,
            5,
            delay
        ),
        compaction_log(2, 5, "unexpected status 503")
    );
    assert_eq!(
        sampling_retry_message(3, 12, "40ms"),
        "stream disconnected - retrying sampling request (3/12 in 40ms)..."
    );
    assert_eq!(
        network_returned_warning(),
        "local network was unavailable; retrying response stream after network returned"
    );
}

#[test]
fn first_websocket_retry_is_quiet_in_release() {
    let mut retries = 0;
    let actions = handle(
        &mut retries,
        2,
        broken_stream(None),
        ResponsesStreamRequest::Sampling,
        CALM,
    );
    let delay = Duration::from_millis(100);
    assert_eq!(
        actions,
        vec![
            StreamRetryAction::Pause(NetworkPauseAction::CheckNetwork),
            StreamRetryAction::ReadWebsocketEnabled,
            StreamRetryAction::ComputeBackoff(1),
            StreamRetryAction::LogRetry(sampling_log(1, 2, "100ms")),
            StreamRetryAction::Sleep(delay),
            StreamRetryAction::Return(Ok(())),
        ]
    );
    assert_eq!(retries, 1);
}

#[test]
fn requested_delay_replaces_the_backoff() {
    let mut retries = 1;
    let delay = Duration::from_secs(9);
    let actions = handle(
        &mut retries,
        2,
        broken_stream(Some(delay)),
        ResponsesStreamRequest::RemoteCompactionV2,
        CALM,
    );
    assert_eq!(
        actions,
        vec![
            StreamRetryAction::Pause(NetworkPauseAction::CheckNetwork),
            StreamRetryAction::ReadWebsocketEnabled,
            StreamRetryAction::LogRetry(compaction_log(
                2,
                2,
                "stream disconnected before completion: network error"
            )),
            StreamRetryAction::NotifyStreamError {
                message: "Reconnecting... 2/2".to_string(),
                err: broken_stream(Some(delay)),
            },
            StreamRetryAction::Sleep(delay),
            StreamRetryAction::Return(Ok(())),
        ]
    );
    assert_eq!(retries, 2);
}

#[test]
fn unavailable_network_is_announced_and_waited_for() {
    let mut retries = 0;
    let world = World {
        availability: NetworkAvailability::Unavailable,
        waited: true,
        debug_build: true,
        ..CALM
    };
    let actions =
        handle(&mut retries, 3, server_failure(), ResponsesStreamRequest::Sampling, world);
    let delay = Duration::from_millis(100);
    assert_eq!(
        actions,
        vec![
            StreamRetryAction::Pause(NetworkPauseAction::CheckNetwork),
            StreamRetryAction::Pause(NetworkPauseAction::SendEvent(waiting_for_network_event(
                &server_failure()
            ))),
            StreamRetryAction::Pause(NetworkPauseAction::WaitForNetwork),
            StreamRetryAction::Pause(NetworkPauseAction::WarnNetworkReturned(
                "local network was unavailable; retrying response stream after network returned"
                    .to_string()
            )),
            StreamRetryAction::ReadWebsocketEnabled,
            StreamRetryAction::ComputeBackoff(1),
            StreamRetryAction::LogRetry(sampling_log(1, 3, "100ms")),
            StreamRetryAction::NotifyStreamError {
                message: "Reconnecting... 1/3".to_string(),
                err: server_failure(),
            },
            StreamRetryAction::Sleep(delay),
            StreamRetryAction::Return(Ok(())),
        ]
    );
}

#[test]
fn unknown_network_is_not_waited_for() {
    let mut retries = 0;
    let world = World { availability: NetworkAvailability::Unknown, ..CALM };
    let actions =
        handle(&mut retries, 3, broken_stream(None), ResponsesStreamRequest::Sampling, world);
    assert_eq!(actions[1], StreamRetryAction::ReadWebsocketEnabled);
}

#[test]
fn network_that_came_back_before_the_wait_is_not_logged() {
    let mut retries = 0;
    let world = World { availability: NetworkAvailability::Unavailable, waited: false, ..CALM };
    let actions =
        handle(&mut retries, 3, broken_stream(None), ResponsesStreamRequest::Sampling, world);
    assert_eq!(actions[2], StreamRetryAction::Pause(NetworkPauseAction::WaitForNetwork));
    assert_eq!(actions[3], StreamRetryAction::ReadWebsocketEnabled);
}

#[test]
fn fallback_transport_starts_with_all_retries() {
    let mut retries = 2;
    let world = World { can_switch: true, ..CALM };
    let actions =
        handle(&mut retries, 2, broken_stream(None), ResponsesStreamRequest::Sampling, world);
    assert_eq!(
        actions,
        vec![
            StreamRetryAction::Pause(NetworkPauseAction::CheckNetwork),
            StreamRetryAction::SwitchFallbackTransport,
            StreamRetryAction::SendEvent(fallback_event(&broken_stream(None))),
            StreamRetryAction::Return(Ok(())),
        ]
    );
    assert_eq!(retries, 0);
}

#[test]
fn fallback_transport_is_not_tried_while_retries_are_left() {
    let mut retries = 1;
    let world = World { can_switch: true, ..CALM };
    let actions =
        handle(&mut retries, 2, broken_stream(None), ResponsesStreamRequest::Sampling, world);
    assert!(!actions.contains(&StreamRetryAction::SwitchFallbackTransport));
    assert_eq!(retries, 2);
}

#[test]
fn failure_is_handed_back_when_nothing_is_left() {
    let mut retries = 2;
    let actions =
        handle(&mut retries, 2, server_failure(), ResponsesStreamRequest::Sampling, CALM);
    assert_eq!(
        actions,
        vec![
            StreamRetryAction::Pause(NetworkPauseAction::CheckNetwork),
            StreamRetryAction::SwitchFallbackTransport,
            StreamRetryAction::ReadWebsocketEnabled,
            StreamRetryAction::Return(Err(server_failure())),
        ]
    );
    assert_eq!(retries, 2);
}

#[test]
fn request_is_tried_again_as_often_as_the_limit_says() {
    let mut retries = 0;
    let mut again: u64 = 0;
    loop {
        let actions =
            handle(&mut retries, 4, broken_stream(None), ResponsesStreamRequest::Sampling, CALM);
        if actions.last() != Some(&StreamRetryAction::Return(Ok(()))) {
            break;
        }
        again += 1;
    }
    assert_eq!(again, 4);
}

#[test]
fn one_fallback_doubles_the_retries_and_adds_one() {
    let mut retries = 0;
    let mut again: u64 = 0;
    let mut can_switch = true;
    loop {
        let world = World { can_switch, ..CALM };
        let actions =
            handle(&mut retries, 4, broken_stream(None), ResponsesStreamRequest::Sampling, world);
        if actions.contains(&StreamRetryAction::SwitchFallbackTransport) {
            can_switch = false;
        }
        if actions.last() != Some(&StreamRetryAction::Return(Ok(()))) {
            break;
        }
        again += 1;
    }
    assert_eq!(again, 9);
    assert_eq!(retries, 4);
}

#[test]
fn pause_stands_on_its_own() {
    let err = broken_stream(None);
    let (mut pause, action) = wait_for_network_before_stream_retry();
    assert_eq!(action, NetworkPauseAction::CheckNetwork);
    let action = pause.step(&err, NetworkPauseEvent::Checked(NetworkAvailability::Available));
    assert_eq!(action, NetworkPauseAction::Proceed);
    assert_eq!(pause, NetworkPause::Finished);
}

#[test]
fn failures_in_words() {
    assert_eq!(
        broken_stream(None).to_string(),
        "stream disconnected before completion: network error"
    );
    assert_eq!(
        broken_stream(None).to_string_with_causes(),
        "stream disconnected before completion: network error"
    );
    assert_eq!(broken_stream(None).http_status_code_value(), None);
    assert_eq!(broken_stream(None).requested_delay(), None);
    let delay = Duration::from_millis(20);
    assert_eq!(broken_stream(Some(delay)).requested_delay(), Some(delay));
    assert_eq!(server_failure().to_string(), "unexpected status 503");
    assert_eq!(server_failure().to_string_with_causes(), "unexpected status 503: overloaded");
    assert_eq!(server_failure().http_status_code_value(), Some(503));
    assert_eq!(server_failure().requested_delay(), None);
}
