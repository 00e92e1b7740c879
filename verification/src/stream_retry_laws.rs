//! What holds of the handling of a broken stream from its beginning to its end.

use crate::duration::Duration;
use crate::error::CodexErr;
use crate::network_availability::{NetworkAvailability, NetworkAvailabilityWait};
use crate::responses_retry::{ResponsesStreamRequest, RetryAttempt};
use crate::stream_retry::{
    NetworkPause, NetworkPauseActionView, NetworkPauseEvent, StreamRetry, StreamRetryActionView,
    StreamRetryEvent, StreamRetryState,
};
use vstd::prelude::*;

verus! {

/// What surrounds the handling of one broken stream: what each of its actions comes to.
pub struct Surroundings {
    /// What a look at the network shows.
    pub availability: NetworkAvailability,
    /// How a wait for the network ends.
    pub wait: NetworkAvailabilityWait,
    /// Whether the session can switch to a fallback transport.
    pub can_switch: bool,
    /// Whether the session streams responses over a websocket.
    pub websocket: bool,
    /// The backoff delay of the next retry.
    pub backoff: Duration,
}

/// What `action` comes to in `world`.
pub open spec fn answer(world: Surroundings, action: StreamRetryActionView) -> StreamRetryEvent {
    match action {
        StreamRetryActionView::Pause(pause_action) => StreamRetryEvent::Pause(
            match pause_action {
                NetworkPauseActionView::CheckNetwork => NetworkPauseEvent::Checked(
                    world.availability,
                ),
                NetworkPauseActionView::SendEvent(_) => NetworkPauseEvent::EventSent,
                NetworkPauseActionView::WaitForNetwork => NetworkPauseEvent::NetworkWaited(
                    world.wait,
                ),
                NetworkPauseActionView::WarnNetworkReturned(_) => NetworkPauseEvent::Warned,
                NetworkPauseActionView::Proceed => NetworkPauseEvent::Warned,
            },
        ),
        StreamRetryActionView::SwitchFallbackTransport => StreamRetryEvent::FallbackSwitched(
            world.can_switch,
        ),
        StreamRetryActionView::SendEvent(_) => StreamRetryEvent::EventSent,
        StreamRetryActionView::ReadWebsocketEnabled => StreamRetryEvent::WebsocketEnabled(
            world.websocket,
        ),
        StreamRetryActionView::ComputeBackoff(_) => StreamRetryEvent::BackoffComputed(
            world.backoff,
        ),
        StreamRetryActionView::LogRetry(_) => StreamRetryEvent::Logged,
        StreamRetryActionView::NotifyStreamError { .. } => StreamRetryEvent::Notified,
        StreamRetryActionView::Sleep(_) => StreamRetryEvent::Slept,
        StreamRetryActionView::Return(_) => StreamRetryEvent::Slept,
    }
}

/// Everything that `handling` asks for in `world`, from `action` on, until it returns, and the
/// count of retries then. It is nothing where the handling is handed an answer that it does
/// not expect, or does not return within `steps` answers.
pub open spec fn run(
    handling: StreamRetry,
    retries: u64,
    action: StreamRetryActionView,
    world: Surroundings,
    steps: nat,
) -> Option<(Seq<StreamRetryActionView>, u64)>
    decreases steps,
{
    if action is Return {
        Some((seq![action], retries))
    } else if steps == 0 || !handling.expects(answer(world, action)) {
        None
    } else {
        let (next_handling, next_retries, next_action) = handling.next(
            retries,
            answer(world, action),
        );
        match run(next_handling, next_retries, next_action, world, (steps - 1) as nat) {
            Some((actions, end)) => Some((seq![action] + actions, end)),
            None => None,
        }
    }
}

/// What comes before a stream that broke off with `err` is tried again: a look at the network
/// and, where it is unavailable, an event for the user, a wait, and a line in the log where
/// the wait took time.
pub open spec fn pause_actions(err: CodexErr, world: Surroundings) -> Seq<StreamRetryActionView> {
    let look = seq![StreamRetryActionView::Pause(NetworkPauseActionView::CheckNetwork)];
    let wait = seq![
        StreamRetryActionView::Pause(
            NetworkPauseActionView::SendEvent(crate::responses_retry::waiting_event(err)),
        ),
        StreamRetryActionView::Pause(NetworkPauseActionView::WaitForNetwork),
    ];
    let warn = seq![
        StreamRetryActionView::Pause(
            NetworkPauseActionView::WarnNetworkReturned(
                crate::responses_retry::NETWORK_RETURNED_MESSAGE@,
            ),
        ),
    ];
    if !(world.availability is Unavailable) {
        look
    } else if !world.wait.waited {
        look + wait
    } else {
        look + wait + warn
    }
}

/// The retry that comes after `retries` of them.
pub open spec fn next_attempt(
    retries: u64,
    world: Surroundings,
    debug_build: bool,
) -> RetryAttempt {
    let retry_count = (retries + 1) as u64;
    RetryAttempt {
        retry_count,
        report_error: crate::responses_retry::is_reported(
            retry_count,
            world.websocket,
            debug_build,
        ),
    }
}

/// The delay before a retry after `err`: the one that the server asked for, or else the backoff.
pub open spec fn retry_delay(err: CodexErr, world: Surroundings) -> Duration {
    match err.delay_asked_for() {
        Some(delay) => delay,
        None => world.backoff,
    }
}

/// What makes up the retry `attempt` after `err`: its delay is found, the log records it, the
/// user is told of it where that is due, and the delay goes by.
pub open spec fn retry_actions(
    max_retries: u64,
    err: CodexErr,
    request: ResponsesStreamRequest,
    turn_id: Seq<char>,
    attempt: RetryAttempt,
    world: Surroundings,
) -> Seq<StreamRetryActionView> {
    let delay = retry_delay(err, world);
    let find = match err.delay_asked_for() {
        Some(_) => seq![],
        None => seq![StreamRetryActionView::ComputeBackoff(attempt.retry_count)],
    };
    find + logged_retry_actions(max_retries, err, request, turn_id, attempt, delay)
}

/// What makes up the retry `attempt` after `err` once its delay is known.
pub open spec fn logged_retry_actions(
    max_retries: u64,
    err: CodexErr,
    request: ResponsesStreamRequest,
    turn_id: Seq<char>,
    attempt: RetryAttempt,
    delay: Duration,
) -> Seq<StreamRetryActionView> {
    let log = seq![
        StreamRetryActionView::LogRetry(
            crate::responses_retry::retry_record(
                request,
                turn_id,
                err,
                attempt.retry_count,
                max_retries,
                delay,
            ),
        ),
    ];
    let notify = if attempt.report_error {
        seq![
            StreamRetryActionView::NotifyStreamError {
                message: crate::responses_retry::reconnecting_text(
                    attempt.retry_count,
                    max_retries,
                ),
                err,
            },
        ]
    } else {
        seq![]
    };
    let sleep = seq![
        StreamRetryActionView::Sleep(delay),
        StreamRetryActionView::Return(Ok(())),
    ];
    log + notify + sleep
}

/// What the handling of a broken stream does once it need not wait for the network any more.
pub open spec fn decision_actions(
    retries: u64,
    max_retries: u64,
    err: CodexErr,
    request: ResponsesStreamRequest,
    turn_id: Seq<char>,
    debug_build: bool,
    world: Surroundings,
) -> Seq<StreamRetryActionView> {
    if retries < max_retries {
        seq![StreamRetryActionView::ReadWebsocketEnabled] + retry_actions(
            max_retries,
            err,
            request,
            turn_id,
            next_attempt(retries, world, debug_build),
            world,
        )
    } else if world.can_switch {
        seq![
            StreamRetryActionView::SwitchFallbackTransport,
            StreamRetryActionView::SendEvent(crate::responses_retry::fallback_warning(err)),
            StreamRetryActionView::Return(Ok(())),
        ]
    } else {
        seq![
            StreamRetryActionView::SwitchFallbackTransport,
            StreamRetryActionView::ReadWebsocketEnabled,
            StreamRetryActionView::Return(Err(err)),
        ]
    }
}

/// Everything that the handling of a broken stream does, in order.
pub open spec fn handling_actions(
    retries: u64,
    max_retries: u64,
    err: CodexErr,
    request: ResponsesStreamRequest,
    turn_id: Seq<char>,
    debug_build: bool,
    world: Surroundings,
) -> Seq<StreamRetryActionView> {
    pause_actions(err, world) + decision_actions(
        retries,
        max_retries,
        err,
        request,
        turn_id,
        debug_build,
        world,
    )
}

/// The count of retries after a broken stream was handled: one more, or none where another
/// transport took over, or as it was where the failure was handed back.
pub open spec fn retries_after(retries: u64, max_retries: u64, can_switch: bool) -> u64 {
    if retries < max_retries {
        (retries + 1) as u64
    } else if can_switch {
        0
    } else {
        retries
    }
}

/// Whether the caller is asked to try the request again: a retry is left, or another transport
/// takes over.
pub open spec fn asks_for_retry(retries: u64, max_retries: u64, can_switch: bool) -> bool {
    retries < max_retries || can_switch
}

/// The most answers that the handling of one broken stream takes.
pub const MAX_STEPS: u64 = 9;

/// What a handling does from a state in which it is about to sleep for `delay`.
proof fn lemma_run_from_sleep(
    handling: StreamRetry,
    retries: u64,
    delay: Duration,
    world: Surroundings,
    steps: nat,
)
    requires
        handling.state is Sleeping,
        steps >= 1,
    ensures
        run(handling, retries, StreamRetryActionView::Sleep(delay), world, steps) == Some(
            (
                seq![
                    StreamRetryActionView::Sleep(delay),
                    StreamRetryActionView::Return(Ok(())),
                ],
                retries,
            ),
        ),
{
    reveal_with_fuel(run, 2);
    assert(seq![StreamRetryActionView::Sleep(delay)] + seq![
        StreamRetryActionView::Return(Ok(())),
    ] =~= seq![StreamRetryActionView::Sleep(delay), StreamRetryActionView::Return(Ok(()))]);
}

/// What a handling does from a state in which the record of a retry is due.
proof fn lemma_run_from_log(
    handling: StreamRetry,
    retries: u64,
    err: CodexErr,
    attempt: RetryAttempt,
    delay: Duration,
    world: Surroundings,
    steps: nat,
)
    requires
        steps >= 3,
    ensures
        run(
            handling.log_due(err, attempt, delay).0,
            retries,
            handling.log_due(err, attempt, delay).1,
            world,
            steps,
        ) == Some(
            (
                logged_retry_actions(
                    handling.max_retries,
                    err,
                    handling.request,
                    handling.turn_id@,
                    attempt,
                    delay,
                ),
                retries,
            ),
        ),
{
    let (logging, log) = handling.log_due(err, attempt, delay);
    let (after_log, _, second) = logging.next(retries, StreamRetryEvent::Logged);
    let expected = logged_retry_actions(
        handling.max_retries,
        err,
        handling.request,
        handling.turn_id@,
        attempt,
        delay,
    );
    let sleep = seq![
        StreamRetryActionView::Sleep(delay),
        StreamRetryActionView::Return(Ok(())),
    ];
    if attempt.report_error {
        let (sleeping, _, _) = after_log.next(retries, StreamRetryEvent::Notified);
        lemma_run_from_sleep(sleeping, retries, delay, world, (steps - 2) as nat);
        assert(run(after_log, retries, second, world, (steps - 1) as nat) == Some(
            (seq![second] + sleep, retries),
        ));
        assert(seq![log] + (seq![second] + sleep) =~= expected);
    } else {
        lemma_run_from_sleep(after_log, retries, delay, world, (steps - 1) as nat);
        assert(seq![log] + sleep =~= expected);
    }
}

/// What a handling does from a state in which it asked for the websocket flag.
proof fn lemma_run_from_websocket_flag(
    handling: StreamRetry,
    retries: u64,
    err: CodexErr,
    world: Surroundings,
    steps: nat,
)
    requires
        handling.state == (StreamRetryState::ReadingWebsocketFlag { err }),
        steps >= 5,
    ensures
        run(
            handling,
            retries,
            StreamRetryActionView::ReadWebsocketEnabled,
            world,
            steps,
        ) == if retries < handling.max_retries {
            Some(
                (
                    seq![StreamRetryActionView::ReadWebsocketEnabled] + retry_actions(
                        handling.max_retries,
                        err,
                        handling.request,
                        handling.turn_id@,
                        next_attempt(retries, world, handling.debug_build),
                        world,
                    ),
                    (retries + 1) as u64,
                ),
            )
        } else {
            Some(
                (
                    seq![
                        StreamRetryActionView::ReadWebsocketEnabled,
                        StreamRetryActionView::Return(Err(err)),
                    ],
                    retries,
                ),
            )
        },
{
    let flag = StreamRetryActionView::ReadWebsocketEnabled;
    let (after_flag, count, second) = handling.next(
        retries,
        StreamRetryEvent::WebsocketEnabled(world.websocket),
    );
    if retries < handling.max_retries {
        let attempt = next_attempt(retries, world, handling.debug_build);
        let delay = retry_delay(err, world);
        let logged = logged_retry_actions(
            handling.max_retries,
            err,
            handling.request,
            handling.turn_id@,
            attempt,
            delay,
        );
        match err.delay_asked_for() {
            Some(asked) => {
                lemma_run_from_log(
                    handling,
                    count,
                    err,
                    attempt,
                    asked,
                    world,
                    (steps - 1) as nat,
                );
                assert(Seq::<StreamRetryActionView>::empty() + logged =~= logged);
            },
            None => {
                lemma_run_from_log(
                    after_flag,
                    count,
                    err,
                    attempt,
                    delay,
                    world,
                    (steps - 2) as nat,
                );
                assert(run(after_flag, count, second, world, (steps - 1) as nat) == Some(
                    (seq![second] + logged, count),
                ));
            },
        }
    } else {
        assert(run(after_flag, count, second, world, (steps - 1) as nat) == Some(
            (seq![second], retries),
        ));
        assert(seq![flag] + seq![second] =~= seq![flag, second]);
    }
}

/// What a handling does once it need not wait for the network any more. It is handed `event`,
/// which ends the pause.
proof fn lemma_run_after_pause(
    handling: StreamRetry,
    retries: u64,
    err: CodexErr,
    event: NetworkPauseEvent,
    world: Surroundings,
    steps: nat,
)
    requires
        handling.state matches StreamRetryState::PausingForNetwork { err: held, .. } && held
            == err,
        NetworkPause::next(err, event).1 is Proceed,
        steps >= 5,
    ensures
        ({
            let (after, count, action) = handling.next(retries, StreamRetryEvent::Pause(event));
            run(after, count, action, world, steps) == Some(
                (
                    decision_actions(
                        retries,
                        handling.max_retries,
                        err,
                        handling.request,
                        handling.turn_id@,
                        handling.debug_build,
                        world,
                    ),
                    retries_after(retries, handling.max_retries, world.can_switch),
                ),
            )
        }),
{
    let (after, _, action) = handling.next(retries, StreamRetryEvent::Pause(event));
    if retries < handling.max_retries {
        lemma_run_from_websocket_flag(after, retries, err, world, steps);
    } else {
        let (second_state, _, second) = after.next(
            retries,
            StreamRetryEvent::FallbackSwitched(world.can_switch),
        );
        if world.can_switch {
            let (third_state, _, third) = second_state.next(retries, StreamRetryEvent::EventSent);
            assert(run(third_state, 0, third, world, (steps - 2) as nat) == Some(
                (seq![third], 0u64),
            ));
            assert(run(second_state, retries, second, world, (steps - 1) as nat) == Some(
                (seq![second] + seq![third], 0u64),
            ));
            assert(seq![action] + (seq![second] + seq![third]) =~= seq![action, second, third]);
        } else {
            let third = StreamRetryActionView::Return(Err(err));
            let (third_state, _, _) = second_state.next(
                retries,
                StreamRetryEvent::WebsocketEnabled(world.websocket),
            );
            assert(run(third_state, retries, third, world, (steps - 2) as nat) == Some(
                (seq![third], retries),
            ));
            assert(run(second_state, retries, second, world, (steps - 1) as nat) == Some(
                (seq![second] + seq![third], retries),
            ));
            assert(seq![action] + (seq![second] + seq![third]) =~= seq![action, second, third]);
        }
    }
}

/// The handling of a broken stream expects what its actions come to, and returns. What it does
/// until then, and the count of retries that it leaves, are these.
pub proof fn law_handling_of_a_broken_stream(
    retries: u64,
    max_retries: u64,
    err: CodexErr,
    request: ResponsesStreamRequest,
    turn_id: String,
    debug_build: bool,
    world: Surroundings,
)
    ensures
        run(
            crate::stream_retry::started_handling(max_retries, err, request, turn_id, debug_build),
            retries,
            StreamRetryActionView::Pause(NetworkPauseActionView::CheckNetwork),
            world,
            MAX_STEPS as nat,
        ) == Some(
            (
                handling_actions(retries, max_retries, err, request, turn_id@, debug_build, world),
                retries_after(retries, max_retries, world.can_switch),
            ),
        ),
{
    let steps = MAX_STEPS as nat;
    let end = retries_after(retries, max_retries, world.can_switch);
    let decided = decision_actions(
        retries,
        max_retries,
        err,
        request,
        turn_id@,
        debug_build,
        world,
    );
    let look = StreamRetryActionView::Pause(NetworkPauseActionView::CheckNetwork);
    let checked = NetworkPauseEvent::Checked(world.availability);
    let started = crate::stream_retry::started_handling(
        max_retries,
        err,
        request,
        turn_id,
        debug_build,
    );
    let (announcing, _, announce) = started.next(retries, StreamRetryEvent::Pause(checked));
    if !(world.availability is Unavailable) {
        lemma_run_after_pause(started, retries, err, checked, world, (steps - 1) as nat);
    } else {
        let sent = NetworkPauseEvent::EventSent;
        let waited = NetworkPauseEvent::NetworkWaited(world.wait);
        let (waiting, _, wait) = announcing.next(retries, StreamRetryEvent::Pause(sent));
        let (warning, _, warn) = waiting.next(retries, StreamRetryEvent::Pause(waited));
        let rest = if world.wait.waited {
            let warned = NetworkPauseEvent::Warned;
            lemma_run_after_pause(warning, retries, err, warned, world, (steps - 4) as nat);
            assert(run(warning, retries, warn, world, (steps - 3) as nat) == Some(
                (seq![warn] + decided, end),
            ));
            seq![warn] + decided
        } else {
            lemma_run_after_pause(waiting, retries, err, waited, world, (steps - 3) as nat);
            decided
        };
        assert(run(waiting, retries, wait, world, (steps - 2) as nat) == Some(
            (seq![wait] + rest, end),
        ));
        assert(run(announcing, retries, announce, world, (steps - 1) as nat) == Some(
            (seq![announce] + (seq![wait] + rest), end),
        ));
        assert(seq![look] + (seq![announce] + (seq![wait] + rest)) =~= handling_actions(
            retries,
            max_retries,
            err,
            request,
            turn_id@,
            debug_build,
            world,
        ));
    }
}

/// The caller tries the request again exactly where a retry was left or another transport took
/// over. Otherwise it gets the failure back, the very one that it handed in.
pub proof fn law_when_the_request_is_tried_again(
    retries: u64,
    max_retries: u64,
    err: CodexErr,
    request: ResponsesStreamRequest,
    turn_id: Seq<char>,
    debug_build: bool,
    world: Surroundings,
)
    ensures
        handling_actions(retries, max_retries, err, request, turn_id, debug_build, world).last()
            == StreamRetryActionView::Return(
            if asks_for_retry(retries, max_retries, world.can_switch) {
                Ok(())
            } else {
                Err(err)
            },
        ),
{
}

/// The fallback transport is tried for only once the retries are used up.
pub proof fn law_fallback_comes_after_the_last_retry(
    retries: u64,
    max_retries: u64,
    err: CodexErr,
    request: ResponsesStreamRequest,
    turn_id: Seq<char>,
    debug_build: bool,
    world: Surroundings,
)
    ensures
        handling_actions(retries, max_retries, err, request, turn_id, debug_build, world).contains(
            StreamRetryActionView::SwitchFallbackTransport,
        ) <==> retries >= max_retries,
{
    let actions = handling_actions(retries, max_retries, err, request, turn_id, debug_build, world);
    let paused = pause_actions(err, world);
    if retries >= max_retries {
        assert(actions[paused.len() as int] == StreamRetryActionView::SwitchFallbackTransport);
    }
}

/// The user hears of a wait for the network, and the network is waited for, exactly where it is
/// unavailable.
pub proof fn law_only_an_unavailable_network_delays_a_retry(
    retries: u64,
    max_retries: u64,
    err: CodexErr,
    request: ResponsesStreamRequest,
    turn_id: Seq<char>,
    debug_build: bool,
    world: Surroundings,
)
    ensures
        handling_actions(retries, max_retries, err, request, turn_id, debug_build, world).contains(
            StreamRetryActionView::Pause(NetworkPauseActionView::WaitForNetwork),
        ) <==> world.availability is Unavailable,
        handling_actions(retries, max_retries, err, request, turn_id, debug_build, world).contains(
            StreamRetryActionView::Pause(
                NetworkPauseActionView::SendEvent(crate::responses_retry::waiting_event(err)),
            ),
        ) <==> world.availability is Unavailable,
{
    let actions = handling_actions(retries, max_retries, err, request, turn_id, debug_build, world);
    if world.availability is Unavailable {
        assert(actions[1] == StreamRetryActionView::Pause(
            NetworkPauseActionView::SendEvent(crate::responses_retry::waiting_event(err)),
        ));
        assert(actions[2] == StreamRetryActionView::Pause(NetworkPauseActionView::WaitForNetwork));
    }
}

/// A delay that the server asked for is kept, and then no backoff is computed; where it asked
/// for none, the backoff is.
pub proof fn law_requested_delay_replaces_the_backoff(
    retries: u64,
    max_retries: u64,
    err: CodexErr,
    request: ResponsesStreamRequest,
    turn_id: Seq<char>,
    debug_build: bool,
    world: Surroundings,
)
    requires
        retries < max_retries,
    ensures
        handling_actions(retries, max_retries, err, request, turn_id, debug_build, world).contains(
            StreamRetryActionView::Sleep(
                if err.delay_asked_for() is Some {
                    err.delay_asked_for()->0
                } else {
                    world.backoff
                },
            ),
        ),
        handling_actions(retries, max_retries, err, request, turn_id, debug_build, world).contains(
            StreamRetryActionView::ComputeBackoff((retries + 1) as u64),
        ) <==> err.delay_asked_for() is None,
{
    let actions = handling_actions(retries, max_retries, err, request, turn_id, debug_build, world);
    let paused = pause_actions(err, world);
    assert(actions[actions.len() - 2] == StreamRetryActionView::Sleep(retry_delay(err, world)));
    if err.delay_asked_for() is None {
        assert(actions[paused.len() as int + 1] == StreamRetryActionView::ComputeBackoff(
            (retries + 1) as u64,
        ));
    }
}

/// The user is told of each retry but the first on a websocket, of which a release build says
/// nothing.
pub proof fn law_which_retries_are_reported(
    retries: u64,
    max_retries: u64,
    err: CodexErr,
    request: ResponsesStreamRequest,
    turn_id: Seq<char>,
    debug_build: bool,
    world: Surroundings,
)
    requires
        retries < max_retries,
    ensures
        handling_actions(retries, max_retries, err, request, turn_id, debug_build, world).contains(
            StreamRetryActionView::NotifyStreamError {
                message: crate::responses_retry::reconnecting_text(
                    (retries + 1) as u64,
                    max_retries,
                ),
                err,
            },
        ) <==> !(retries == 0 && world.websocket && !debug_build),
{
    let actions = handling_actions(retries, max_retries, err, request, turn_id, debug_build, world);
    if next_attempt(retries, world, debug_build).report_error {
        assert(actions[actions.len() - 3] is NotifyStreamError);
    }
}

/// What `failures` broken streams in a row leave of a request that had not been tried again
/// before: the count of retries, and whether the session can still switch its transport. It has
/// one transport to switch to where `has_fallback` says so.
pub open spec fn after_failures(max_retries: u64, has_fallback: bool, failures: nat) -> (u64, bool)
    decreases failures,
{
    if failures == 0 {
        (0, has_fallback)
    } else {
        let (retries, can_switch) = after_failures(
            max_retries,
            has_fallback,
            (failures - 1) as nat,
        );
        (
            retries_after(retries, max_retries, can_switch),
            can_switch && retries < max_retries,
        )
    }
}

/// A request of a session that has no other transport is tried again `max_retries` times, and
/// no more.
pub proof fn law_retry_budget(max_retries: u64, failures: nat)
    ensures
        after_failures(max_retries, false, failures).0 == if failures < max_retries {
            failures
        } else {
            max_retries as nat
        },
        !after_failures(max_retries, false, failures).1,
        asks_for_retry(
            after_failures(max_retries, false, failures).0,
            max_retries,
            after_failures(max_retries, false, failures).1,
        ) <==> failures < max_retries,
    decreases failures,
{
    if failures > 0 {
        law_retry_budget(max_retries, (failures - 1) as nat);
    }
}

/// A request of a session that has one other transport is tried again `max_retries` times on
/// the first, once for the switch, and `max_retries` times on the other, and no more. The count
/// then stands at `max_retries`.
pub proof fn law_retry_budget_with_a_fallback(max_retries: u64, failures: nat)
    ensures
        after_failures(max_retries, true, failures).0 == if failures <= max_retries {
            failures as int
        } else if failures <= 2 * max_retries + 1 {
            failures - max_retries - 1
        } else {
            max_retries as int
        },
        after_failures(max_retries, true, failures).1 <==> failures <= max_retries,
        asks_for_retry(
            after_failures(max_retries, true, failures).0,
            max_retries,
            after_failures(max_retries, true, failures).1,
        ) <==> failures < 2 * max_retries + 1,
        failures >= 2 * max_retries + 1 ==> after_failures(max_retries, true, failures).0
            == max_retries,
    decreases failures,
{
    if failures > 0 {
        law_retry_budget_with_a_fallback(max_retries, (failures - 1) as nat);
    }
}

/// The count of retries never gets above its limit, and a fallback transport starts with all of
/// them.
pub proof fn law_retries_stay_within_their_limit(
    retries: u64,
    max_retries: u64,
    can_switch: bool,
)
    requires
        retries <= max_retries,
    ensures
        retries_after(retries, max_retries, can_switch) <= max_retries,
        retries == max_retries && can_switch ==> retries_after(retries, max_retries, can_switch)
            == 0,
{
}

} // verus!
