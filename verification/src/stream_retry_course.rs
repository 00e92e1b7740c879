//! The course of a broken stream's handling, told by what it does and in what order.
//!
//! Each law here takes a handling from the function that starts it and runs it to its end, in any
//! surroundings, and says under what conditions one kind of action is taken on the way, and with
//! what in it.

use crate::duration::Duration;
use crate::error::CodexErr;
use crate::network_availability::{NetworkAvailability, NetworkAvailabilityWait};
use crate::protocol::{CodexErrorInfo, EventMsgView};
use crate::responses_retry::{ResponsesStreamRequest, RetryLogView};
use crate::stream_retry::{
    handle_retryable_response_stream_error, wait_for_network_before_stream_retry, NetworkPause,
    NetworkPauseAction, NetworkPauseActionView, NetworkPauseEvent, StreamRetry, StreamRetryAction,
    StreamRetryActionView, StreamRetryEvent,
};
use crate::stream_retry_laws::Surroundings;
use vstd::prelude::*;

verus! {

/// Whether `actions` is what the handling that started as `started` does in `world` until it
/// returns, with `end` retries counted then.
pub open spec fn runs_to(
    started: (StreamRetry, StreamRetryAction),
    retries: u64,
    world: Surroundings,
    actions: Seq<StreamRetryActionView>,
    end: u64,
) -> bool {
    crate::stream_retry_laws::run(started.0, retries, started.1@, world, 9) == Some((actions, end))
}

/// The place of `action` in the course of a handling.
pub open spec fn place(action: StreamRetryActionView) -> int {
    match action {
        StreamRetryActionView::Pause(NetworkPauseActionView::CheckNetwork) => 0,
        StreamRetryActionView::Pause(NetworkPauseActionView::SendEvent(_)) => 1,
        StreamRetryActionView::Pause(NetworkPauseActionView::WaitForNetwork) => 2,
        StreamRetryActionView::Pause(NetworkPauseActionView::WarnNetworkReturned(_)) => 3,
        StreamRetryActionView::Pause(NetworkPauseActionView::Proceed) => 4,
        StreamRetryActionView::SwitchFallbackTransport => 5,
        StreamRetryActionView::SendEvent(_) => 6,
        StreamRetryActionView::ReadWebsocketEnabled => 7,
        StreamRetryActionView::ComputeBackoff(_) => 8,
        StreamRetryActionView::LogRetry(_) => 9,
        StreamRetryActionView::NotifyStreamError { .. } => 10,
        StreamRetryActionView::Sleep(_) => 11,
        StreamRetryActionView::Return(_) => 12,
    }
}

/// Every handling returns, after at most nine answers.
pub proof fn law_handling_returns(
    retries: u64,
    max_retries: u64,
    err: CodexErr,
    request: ResponsesStreamRequest,
    turn_id: String,
    debug_build: bool,
    world: Surroundings,
    started: (StreamRetry, StreamRetryAction),
)
    requires
        call_ensures(
            handle_retryable_response_stream_error,
            (max_retries, err, request, turn_id, debug_build),
            started,
        ),
    ensures
        exists|actions: Seq<StreamRetryActionView>, end: u64|
            runs_to(started, retries, world, actions, end),
{
    crate::stream_retry_laws::law_handling_of_a_broken_stream(
        retries,
        max_retries,
        err,
        request,
        turn_id,
        debug_build,
        world,
    );
    assert(runs_to(
        started,
        retries,
        world,
        crate::stream_retry_laws::handling_actions(
            retries,
            max_retries,
            err,
            request,
            turn_id@,
            debug_build,
            world,
        ),
        crate::stream_retry_laws::retries_after(retries, max_retries, world.can_switch),
    ));
}

/// A run does what was worked out for it.
proof fn lemma_course(
    retries: u64,
    max_retries: u64,
    err: CodexErr,
    request: ResponsesStreamRequest,
    turn_id: String,
    debug_build: bool,
    world: Surroundings,
    started: (StreamRetry, StreamRetryAction),
    actions: Seq<StreamRetryActionView>,
    end: u64,
)
    requires
        call_ensures(
            handle_retryable_response_stream_error,
            (max_retries, err, request, turn_id, debug_build),
            started,
        ),
        runs_to(started, retries, world, actions, end),
    ensures
        actions == crate::stream_retry_laws::handling_actions(
            retries,
            max_retries,
            err,
            request,
            turn_id@,
            debug_build,
            world,
        ),
        end == crate::stream_retry_laws::retries_after(retries, max_retries, world.can_switch),
{
    crate::stream_retry_laws::law_handling_of_a_broken_stream(
        retries,
        max_retries,
        err,
        request,
        turn_id,
        debug_build,
        world,
    );
}

/// The delay that is slept for before a retry after `err`.
pub open spec fn delay_kept(err: CodexErr, world: Surroundings) -> Duration {
    match err {
        CodexErr::Stream(_, Some(asked)) => asked,
        _ => world.backoff,
    }
}

/// What is in a sum of two sequences is in one of them.
proof fn lemma_contains_sum(
    one: Seq<StreamRetryActionView>,
    other: Seq<StreamRetryActionView>,
    action: StreamRetryActionView,
)
    ensures
        (one + other).contains(action) <==> one.contains(action) || other.contains(action),
{
    let sum = one + other;
    if one.contains(action) {
        let i = choose|i: int| 0 <= i < one.len() && one[i] == action;
        assert(sum[i] == action);
    }
    if other.contains(action) {
        let i = choose|i: int| 0 <= i < other.len() && other[i] == action;
        assert(sum[one.len() + i] == action);
    }
    if sum.contains(action) {
        let i = choose|i: int| 0 <= i < sum.len() && sum[i] == action;
        if i < one.len() {
            assert(one[i] == action);
        } else {
            assert(other[i - one.len()] == action);
        }
    }
}

/// What is in a sequence of up to three is one of them.
proof fn lemma_contains_few(
    a: StreamRetryActionView,
    b: StreamRetryActionView,
    c: StreamRetryActionView,
    action: StreamRetryActionView,
)
    ensures
        !Seq::<StreamRetryActionView>::empty().contains(action),
        seq![a].contains(action) <==> action == a,
        seq![a, b].contains(action) <==> action == a || action == b,
        seq![a, b, c].contains(action) <==> action == a || action == b || action == c,
{
    assert(seq![a][0] == a);
    assert(seq![a, b][0] == a && seq![a, b][1] == b);
    assert(seq![a, b, c][0] == a && seq![a, b, c][1] == b && seq![a, b, c][2] == c);
}

/// When the pause before a retry takes `action`.
proof fn lemma_taken_in_pause(err: CodexErr, world: Surroundings, action: StreamRetryActionView)
    ensures
        crate::stream_retry_laws::pause_actions(err, world).contains(action) <==> {
            let unavailable = world.availability == NetworkAvailability::Unavailable;
            ||| action == StreamRetryActionView::Pause(NetworkPauseActionView::CheckNetwork)
            ||| unavailable && action == StreamRetryActionView::Pause(
                NetworkPauseActionView::SendEvent(crate::responses_retry::waiting_event(err)),
            )
            ||| unavailable && action == StreamRetryActionView::Pause(
                NetworkPauseActionView::WaitForNetwork,
            )
            ||| unavailable && world.wait.waited && action == StreamRetryActionView::Pause(
                NetworkPauseActionView::WarnNetworkReturned(
                    crate::responses_retry::NETWORK_RETURNED_MESSAGE@,
                ),
            )
        },
{
    let look = StreamRetryActionView::Pause(NetworkPauseActionView::CheckNetwork);
    let announce = StreamRetryActionView::Pause(
        NetworkPauseActionView::SendEvent(crate::responses_retry::waiting_event(err)),
    );
    let wait = StreamRetryActionView::Pause(NetworkPauseActionView::WaitForNetwork);
    let warn = StreamRetryActionView::Pause(
        NetworkPauseActionView::WarnNetworkReturned(
            crate::responses_retry::NETWORK_RETURNED_MESSAGE@,
        ),
    );
    lemma_contains_few(look, look, look, action);
    lemma_contains_few(announce, wait, wait, action);
    lemma_contains_few(warn, warn, warn, action);
    lemma_contains_sum(seq![look], seq![announce, wait], action);
    lemma_contains_sum(seq![look] + seq![announce, wait], seq![warn], action);
}

/// When a retry takes `action`.
proof fn lemma_taken_in_retry(
    retries: u64,
    max_retries: u64,
    err: CodexErr,
    request: ResponsesStreamRequest,
    turn_id: Seq<char>,
    debug_build: bool,
    world: Surroundings,
    action: StreamRetryActionView,
)
    requires
        retries < max_retries,
    ensures
        crate::stream_retry_laws::retry_actions(
            max_retries,
            err,
            request,
            turn_id,
            crate::stream_retry_laws::next_attempt(retries, world, debug_build),
            world,
        ).contains(action) <==> {
            let number = (retries + 1) as u64;
            let delay = delay_kept(err, world);
            ||| !(err matches CodexErr::Stream(_, Some(_))) && action
                == StreamRetryActionView::ComputeBackoff(number)
            ||| action == StreamRetryActionView::LogRetry(
                crate::responses_retry::retry_record(
                    request,
                    turn_id,
                    err,
                    number,
                    max_retries,
                    delay,
                ),
            )
            ||| !(retries == 0 && world.websocket && !debug_build) && action
                == (StreamRetryActionView::NotifyStreamError {
                message: crate::responses_retry::reconnecting_text(number, max_retries),
                err,
            })
            ||| action == StreamRetryActionView::Sleep(delay)
            ||| action == StreamRetryActionView::Return(Ok(()))
        },
{
    let number = (retries + 1) as u64;
    let delay = delay_kept(err, world);
    let compute = StreamRetryActionView::ComputeBackoff(number);
    let log = StreamRetryActionView::LogRetry(
        crate::responses_retry::retry_record(request, turn_id, err, number, max_retries, delay),
    );
    let notify = StreamRetryActionView::NotifyStreamError {
        message: crate::responses_retry::reconnecting_text(number, max_retries),
        err,
    };
    let sleep = StreamRetryActionView::Sleep(delay);
    let done = StreamRetryActionView::Return(Ok(()));
    lemma_contains_few(compute, compute, compute, action);
    lemma_contains_few(log, log, log, action);
    lemma_contains_few(notify, notify, notify, action);
    lemma_contains_few(sleep, done, done, action);
    let none = Seq::<StreamRetryActionView>::empty();
    let told = if crate::stream_retry_laws::next_attempt(retries, world, debug_build).report_error {
        seq![notify]
    } else {
        none
    };
    let find = if err.delay_asked_for() is None {
        seq![compute]
    } else {
        none
    };
    lemma_contains_sum(seq![log], told, action);
    lemma_contains_sum(seq![log] + told, seq![sleep, done], action);
    lemma_contains_sum(find, seq![log] + told + seq![sleep, done], action);
}

/// When a handling takes `action`.
proof fn lemma_taken(
    retries: u64,
    max_retries: u64,
    err: CodexErr,
    request: ResponsesStreamRequest,
    turn_id: Seq<char>,
    debug_build: bool,
    world: Surroundings,
    action: StreamRetryActionView,
)
    ensures
        crate::stream_retry_laws::handling_actions(
            retries,
            max_retries,
            err,
            request,
            turn_id,
            debug_build,
            world,
        ).contains(action) <==> {
            ||| crate::stream_retry_laws::pause_actions(err, world).contains(action)
            ||| retries < max_retries && crate::stream_retry_laws::retry_actions(
                max_retries,
                err,
                request,
                turn_id,
                crate::stream_retry_laws::next_attempt(retries, world, debug_build),
                world,
            ).contains(action)
            ||| action == StreamRetryActionView::ReadWebsocketEnabled && (retries < max_retries
                || !world.can_switch)
            ||| retries >= max_retries && action == StreamRetryActionView::SwitchFallbackTransport
            ||| retries >= max_retries && world.can_switch && action
                == StreamRetryActionView::SendEvent(crate::responses_retry::fallback_warning(err))
            ||| retries >= max_retries && world.can_switch && action
                == StreamRetryActionView::Return(Ok(()))
            ||| retries >= max_retries && !world.can_switch && action
                == StreamRetryActionView::Return(Err(err))
        },
        crate::stream_retry_laws::pause_actions(err, world).contains(action) <==> {
            let unavailable = world.availability == NetworkAvailability::Unavailable;
            ||| action == StreamRetryActionView::Pause(NetworkPauseActionView::CheckNetwork)
            ||| unavailable && action == StreamRetryActionView::Pause(
                NetworkPauseActionView::SendEvent(crate::responses_retry::waiting_event(err)),
            )
            ||| unavailable && action == StreamRetryActionView::Pause(
                NetworkPauseActionView::WaitForNetwork,
            )
            ||| unavailable && world.wait.waited && action == StreamRetryActionView::Pause(
                NetworkPauseActionView::WarnNetworkReturned(
                    crate::responses_retry::NETWORK_RETURNED_MESSAGE@,
                ),
            )
        },
        retries < max_retries ==> (crate::stream_retry_laws::retry_actions(
            max_retries,
            err,
            request,
            turn_id,
            crate::stream_retry_laws::next_attempt(retries, world, debug_build),
            world,
        ).contains(action) <==> {
            let number = (retries + 1) as u64;
            let delay = delay_kept(err, world);
            ||| !(err matches CodexErr::Stream(_, Some(_))) && action
                == StreamRetryActionView::ComputeBackoff(number)
            ||| action == StreamRetryActionView::LogRetry(
                crate::responses_retry::retry_record(
                    request,
                    turn_id,
                    err,
                    number,
                    max_retries,
                    delay,
                ),
            )
            ||| !(retries == 0 && world.websocket && !debug_build) && action
                == (StreamRetryActionView::NotifyStreamError {
                message: crate::responses_retry::reconnecting_text(number, max_retries),
                err,
            })
            ||| action == StreamRetryActionView::Sleep(delay)
            ||| action == StreamRetryActionView::Return(Ok(()))
        }),
{
    let paused = crate::stream_retry_laws::pause_actions(err, world);
    let decided = crate::stream_retry_laws::decision_actions(
        retries,
        max_retries,
        err,
        request,
        turn_id,
        debug_build,
        world,
    );
    lemma_contains_sum(paused, decided, action);
    lemma_taken_in_pause(err, world, action);
    let read = StreamRetryActionView::ReadWebsocketEnabled;
    let switch = StreamRetryActionView::SwitchFallbackTransport;
    if retries < max_retries {
        lemma_taken_in_retry(
            retries,
            max_retries,
            err,
            request,
            turn_id,
            debug_build,
            world,
            action,
        );
        lemma_contains_few(read, read, read, action);
        lemma_contains_sum(
            seq![read],
            crate::stream_retry_laws::retry_actions(
                max_retries,
                err,
                request,
                turn_id,
                crate::stream_retry_laws::next_attempt(retries, world, debug_build),
                world,
            ),
            action,
        );
    } else if world.can_switch {
        lemma_contains_few(
            switch,
            StreamRetryActionView::SendEvent(crate::responses_retry::fallback_warning(err)),
            StreamRetryActionView::Return(Ok(())),
            action,
        );
    } else {
        lemma_contains_few(switch, read, StreamRetryActionView::Return(Err(err)), action);
    }
}

/// Whether the actions of `part` come in their places, each from `low` on and below `high`.
spec fn in_places(part: Seq<StreamRetryActionView>, low: int, high: int) -> bool {
    &&& forall|i: int| 0 <= i < part.len() ==> low <= place(#[trigger] part[i]) < high
    &&& forall|i: int, j: int|
        0 <= i < j < part.len() ==> place(#[trigger] part[i]) < place(#[trigger] part[j])
}

/// Two parts in their places make one.
proof fn lemma_places_of_sum(
    one: Seq<StreamRetryActionView>,
    other: Seq<StreamRetryActionView>,
    low: int,
    middle: int,
    high: int,
)
    requires
        in_places(one, low, middle),
        in_places(other, middle, high),
        low <= middle <= high,
    ensures
        in_places(one + other, low, high),
{
    let sum = one + other;
    assert forall|i: int| 0 <= i < sum.len() implies low <= place(#[trigger] sum[i]) < high by {
        if i < one.len() {
            assert(sum[i] == one[i]);
        } else {
            assert(sum[i] == other[i - one.len()]);
        }
    }
    assert forall|i: int, j: int| 0 <= i < j < sum.len() implies place(#[trigger] sum[i]) < place(
        #[trigger] sum[j],
    ) by {
        if j < one.len() {
            assert(sum[i] == one[i] && sum[j] == one[j]);
        } else if i < one.len() {
            assert(sum[i] == one[i] && sum[j] == other[j - one.len()]);
        } else {
            assert(sum[i] == other[i - one.len()] && sum[j] == other[j - one.len()]);
        }
    }
}

/// The actions of a handling come in their places, the look at the network first.
proof fn lemma_places(
    retries: u64,
    max_retries: u64,
    err: CodexErr,
    request: ResponsesStreamRequest,
    turn_id: Seq<char>,
    debug_build: bool,
    world: Surroundings,
)
    ensures
        ({
            let actions = crate::stream_retry_laws::handling_actions(
                retries,
                max_retries,
                err,
                request,
                turn_id,
                debug_build,
                world,
            );
            &&& in_places(actions, 0, 13)
            &&& actions.len() >= 2
            &&& actions[0] == StreamRetryActionView::Pause(NetworkPauseActionView::CheckNetwork)
            &&& actions.last() is Return
        }),
{
    let look = seq![StreamRetryActionView::Pause(NetworkPauseActionView::CheckNetwork)];
    let waits = seq![
        StreamRetryActionView::Pause(
            NetworkPauseActionView::SendEvent(crate::responses_retry::waiting_event(err)),
        ),
        StreamRetryActionView::Pause(NetworkPauseActionView::WaitForNetwork),
    ];
    let warn = seq![
        StreamRetryActionView::Pause(
            NetworkPauseActionView::WarnNetworkReturned(
                crate::responses_retry::NETWORK_RETURNED_MESSAGE@,
            ),
        ),
    ];
    let paused = crate::stream_retry_laws::pause_actions(err, world);
    assert(in_places(paused, 0, 5)) by {
        lemma_places_of_sum(look, waits, 0, 1, 3);
        lemma_places_of_sum(look + waits, warn, 0, 3, 5);
    }
    let decided = crate::stream_retry_laws::decision_actions(
        retries,
        max_retries,
        err,
        request,
        turn_id,
        debug_build,
        world,
    );
    if retries < max_retries {
        lemma_places_of_retry(
            retries,
            max_retries,
            err,
            request,
            turn_id,
            debug_build,
            world,
        );
        lemma_places_of_sum(
            seq![StreamRetryActionView::ReadWebsocketEnabled],
            crate::stream_retry_laws::retry_actions(
                max_retries,
                err,
                request,
                turn_id,
                crate::stream_retry_laws::next_attempt(retries, world, debug_build),
                world,
            ),
            5,
            8,
            13,
        );
    }
    assert(in_places(decided, 5, 13));
    lemma_places_of_sum(paused, decided, 0, 5, 13);
}

/// The actions of a retry come in their places.
proof fn lemma_places_of_retry(
    retries: u64,
    max_retries: u64,
    err: CodexErr,
    request: ResponsesStreamRequest,
    turn_id: Seq<char>,
    debug_build: bool,
    world: Surroundings,
)
    ensures
        ({
            let actions = crate::stream_retry_laws::retry_actions(
                max_retries,
                err,
                request,
                turn_id,
                crate::stream_retry_laws::next_attempt(retries, world, debug_build),
                world,
            );
            &&& in_places(actions, 8, 13)
            &&& actions.len() >= 3
            &&& actions.last() is Return
        }),
{
    let attempt = crate::stream_retry_laws::next_attempt(retries, world, debug_build);
    let delay = crate::stream_retry_laws::retry_delay(err, world);
    let none = Seq::<StreamRetryActionView>::empty();
    let find = if err.delay_asked_for() is None {
        seq![StreamRetryActionView::ComputeBackoff(attempt.retry_count)]
    } else {
        none
    };
    let log = seq![
        StreamRetryActionView::LogRetry(
            crate::responses_retry::retry_record(
                request,
                turn_id,
                err,
                attempt.retry_count,
                max_retries,
                delay,
            ),
        ),
    ];
    let notify = if attempt.report_error {
        seq![
            StreamRetryActionView::NotifyStreamError {
                message: crate::responses_retry::reconnecting_text(
                    attempt.retry_count,
                    max_retries,
                ),
                err,
            },
        ]
    } else {
        none
    };
    let sleep = seq![
        StreamRetryActionView::Sleep(delay),
        StreamRetryActionView::Return(Ok(())),
    ];
    lemma_places_of_sum(log, notify, 9, 10, 11);
    lemma_places_of_sum(log + notify, sleep, 9, 11, 13);
    lemma_places_of_sum(find, log + notify + sleep, 8, 9, 13);
}

/// No action is taken twice, and those that are taken come in their places. The first is the look
/// at the network, and the last says what is returned.
pub proof fn law_order_of_actions(
    retries: u64,
    max_retries: u64,
    err: CodexErr,
    request: ResponsesStreamRequest,
    turn_id: String,
    debug_build: bool,
    world: Surroundings,
    started: (StreamRetry, StreamRetryAction),
    actions: Seq<StreamRetryActionView>,
    end: u64,
)
    requires
        call_ensures(
            handle_retryable_response_stream_error,
            (max_retries, err, request, turn_id, debug_build),
            started,
        ),
        runs_to(started, retries, world, actions, end),
    ensures
        actions.len() >= 2,
        actions.first() == StreamRetryActionView::Pause(NetworkPauseActionView::CheckNetwork),
        actions.last() is Return,
        forall|i: int, j: int|
            0 <= i < j < actions.len() ==> place(#[trigger] actions[i]) < place(
                #[trigger] actions[j],
            ),
{
    lemma_course(
        retries,
        max_retries,
        err,
        request,
        turn_id,
        debug_build,
        world,
        started,
        actions,
        end,
    );
    lemma_places(retries, max_retries, err, request, turn_id@, debug_build, world);
}

/// The caller is asked to try again exactly where fewer than `max_retries` retries were made or
/// another transport takes over, and gets its own failure back otherwise. A retry adds one to the
/// count, another transport sets it to zero, and a failure that is handed back leaves it.
pub proof fn law_outcome(
    retries: u64,
    max_retries: u64,
    err: CodexErr,
    request: ResponsesStreamRequest,
    turn_id: String,
    debug_build: bool,
    world: Surroundings,
    started: (StreamRetry, StreamRetryAction),
    actions: Seq<StreamRetryActionView>,
    end: u64,
)
    requires
        call_ensures(
            handle_retryable_response_stream_error,
            (max_retries, err, request, turn_id, debug_build),
            started,
        ),
        runs_to(started, retries, world, actions, end),
    ensures
        retries < max_retries ==> end == retries + 1 && actions.last()
            == StreamRetryActionView::Return(Ok(())),
        retries >= max_retries && world.can_switch ==> end == 0 && actions.last()
            == StreamRetryActionView::Return(Ok(())),
        retries >= max_retries && !world.can_switch ==> end == retries && actions.last()
            == StreamRetryActionView::Return(Err(err)),
{
    lemma_course(
        retries,
        max_retries,
        err,
        request,
        turn_id,
        debug_build,
        world,
        started,
        actions,
        end,
    );
}

/// A retry sleeps for exactly the delay that the server asked for, where it asked for one, and
/// then no backoff is computed. Where it asked for none, the backoff of this retry's number is
/// computed and slept for. Without a retry there is neither.
pub proof fn law_sleep_of_a_retry(
    retries: u64,
    max_retries: u64,
    err: CodexErr,
    request: ResponsesStreamRequest,
    turn_id: String,
    debug_build: bool,
    world: Surroundings,
    started: (StreamRetry, StreamRetryAction),
    actions: Seq<StreamRetryActionView>,
    end: u64,
)
    requires
        call_ensures(
            handle_retryable_response_stream_error,
            (max_retries, err, request, turn_id, debug_build),
            started,
        ),
        runs_to(started, retries, world, actions, end),
    ensures
        ({
            let asked = match err {
                CodexErr::Stream(_, Some(delay)) => Some(delay),
                _ => None,
            };
            &&& forall|delay: Duration|
                #[trigger] actions.contains(StreamRetryActionView::Sleep(delay)) <==> {
                    &&& retries < max_retries
                    &&& match asked {
                        Some(named) => delay == named,
                        None => delay == world.backoff,
                    }
                }
            &&& forall|number: u64|
                #[trigger] actions.contains(StreamRetryActionView::ComputeBackoff(number)) <==> {
                    &&& retries < max_retries
                    &&& asked is None
                    &&& number == retries + 1
                }
        }),
{
    lemma_course(
        retries,
        max_retries,
        err,
        request,
        turn_id,
        debug_build,
        world,
        started,
        actions,
        end,
    );
    assert forall|delay: Duration| #[trigger]
        actions.contains(StreamRetryActionView::Sleep(delay)) <==> retries < max_retries && delay
            == delay_kept(err, world) by {
        lemma_taken(
            retries,
            max_retries,
            err,
            request,
            turn_id@,
            debug_build,
            world,
            StreamRetryActionView::Sleep(delay),
        );
    }
    assert forall|number: u64| #[trigger]
        actions.contains(StreamRetryActionView::ComputeBackoff(number)) <==> {
            &&& retries < max_retries
            &&& !(err matches CodexErr::Stream(_, Some(_)))
            &&& number == retries + 1
        } by {
        lemma_taken(
            retries,
            max_retries,
            err,
            request,
            turn_id@,
            debug_build,
            world,
            StreamRetryActionView::ComputeBackoff(number),
        );
    }
}

/// A retry is logged once: for a sampling request by a sentence with its number, the limit and the
/// delay, for a compaction by a fixed sentence with the turn, the number, the limit and the
/// failure.
pub proof fn law_log_of_a_handling(
    retries: u64,
    max_retries: u64,
    err: CodexErr,
    request: ResponsesStreamRequest,
    turn_id: String,
    debug_build: bool,
    world: Surroundings,
    started: (StreamRetry, StreamRetryAction),
    actions: Seq<StreamRetryActionView>,
    end: u64,
)
    requires
        call_ensures(
            handle_retryable_response_stream_error,
            (max_retries, err, request, turn_id, debug_build),
            started,
        ),
        runs_to(started, retries, world, actions, end),
    ensures
        forall|record: RetryLogView| #[trigger]
            actions.contains(StreamRetryActionView::LogRetry(record)) <==> {
                let delay = match err {
                    CodexErr::Stream(_, Some(asked)) => asked,
                    _ => world.backoff,
                };
                &&& retries < max_retries
                &&& record == match request {
                    ResponsesStreamRequest::Sampling => RetryLogView::Sampling {
                        message: "stream disconnected - retrying sampling request ("@
                            + crate::text::decimal((retries + 1) as nat) + "/"@
                            + crate::text::decimal(max_retries as nat) + " in "@ + delay.text()
                            + ")..."@,
                    },
                    ResponsesStreamRequest::RemoteCompactionV2 => {
                        RetryLogView::RemoteCompactionV2 {
                            message:
                                "remote compaction v2 stream failed; retrying request after delay"@,
                            turn_id: turn_id@,
                            retries: (retries + 1) as u64,
                            max_retries,
                            compact_error: err.text(),
                        }
                    },
                }
            },
{
    lemma_course(
        retries,
        max_retries,
        err,
        request,
        turn_id,
        debug_build,
        world,
        started,
        actions,
        end,
    );
    assert forall|record: RetryLogView| #[trigger]
        actions.contains(StreamRetryActionView::LogRetry(record)) <==> retries < max_retries
            && record == crate::responses_retry::retry_record(
            request,
            turn_id@,
            err,
            (retries + 1) as u64,
            max_retries,
            delay_kept(err, world),
        ) by {
        lemma_taken(
            retries,
            max_retries,
            err,
            request,
            turn_id@,
            debug_build,
            world,
            StreamRetryActionView::LogRetry(record),
        );
    }
}

/// The user is told of a retry by a message with its number and the limit, and by the failure
/// itself, except of the first retry on a websocket in a release build.
pub proof fn law_notice_of_a_retry(
    retries: u64,
    max_retries: u64,
    err: CodexErr,
    request: ResponsesStreamRequest,
    turn_id: String,
    debug_build: bool,
    world: Surroundings,
    started: (StreamRetry, StreamRetryAction),
    actions: Seq<StreamRetryActionView>,
    end: u64,
)
    requires
        call_ensures(
            handle_retryable_response_stream_error,
            (max_retries, err, request, turn_id, debug_build),
            started,
        ),
        runs_to(started, retries, world, actions, end),
    ensures
        forall|message: Seq<char>, told: CodexErr| #[trigger]
            actions.contains(
                (StreamRetryActionView::NotifyStreamError { message, err: told }),
            ) <==> {
                &&& retries < max_retries
                &&& !(retries == 0 && world.websocket && !debug_build)
                &&& told == err
                &&& message == "Reconnecting... "@ + crate::text::decimal((retries + 1) as nat)
                    + "/"@ + crate::text::decimal(max_retries as nat)
            },
{
    lemma_course(
        retries,
        max_retries,
        err,
        request,
        turn_id,
        debug_build,
        world,
        started,
        actions,
        end,
    );
    assert forall|message: Seq<char>, told: CodexErr| #[trigger]
        actions.contains(
            (StreamRetryActionView::NotifyStreamError { message, err: told }),
        ) <==> {
            &&& retries < max_retries
            &&& !(retries == 0 && world.websocket && !debug_build)
            &&& told == err
            &&& message == crate::responses_retry::reconnecting_text(
                (retries + 1) as u64,
                max_retries,
            )
        } by {
        lemma_taken(
            retries,
            max_retries,
            err,
            request,
            turn_id@,
            debug_build,
            world,
            StreamRetryActionView::NotifyStreamError { message, err: told },
        );
    }
}

/// The fallback transport is tried for exactly where no retry is left, and the user is warned
/// exactly where it takes over. The websocket flag is read wherever it does not.
pub proof fn law_fallback_of_a_handling(
    retries: u64,
    max_retries: u64,
    err: CodexErr,
    request: ResponsesStreamRequest,
    turn_id: String,
    debug_build: bool,
    world: Surroundings,
    started: (StreamRetry, StreamRetryAction),
    actions: Seq<StreamRetryActionView>,
    end: u64,
)
    requires
        call_ensures(
            handle_retryable_response_stream_error,
            (max_retries, err, request, turn_id, debug_build),
            started,
        ),
        runs_to(started, retries, world, actions, end),
    ensures
        actions.contains(StreamRetryActionView::SwitchFallbackTransport) <==> retries
            >= max_retries,
        forall|event: EventMsgView| #[trigger]
            actions.contains(StreamRetryActionView::SendEvent(event)) <==> {
                &&& retries >= max_retries
                &&& world.can_switch
                &&& event == (EventMsgView::Warning {
                    message: "Falling back from WebSockets to HTTPS transport. "@
                        + err.text_with_causes(),
                })
            },
        actions.contains(StreamRetryActionView::ReadWebsocketEnabled) <==> retries < max_retries
            || !world.can_switch,
{
    lemma_course(
        retries,
        max_retries,
        err,
        request,
        turn_id,
        debug_build,
        world,
        started,
        actions,
        end,
    );
    assert forall|event: EventMsgView| #[trigger]
        actions.contains(StreamRetryActionView::SendEvent(event)) <==> {
            &&& retries >= max_retries
            &&& world.can_switch
            &&& event == crate::responses_retry::fallback_warning(err)
        } by {
        lemma_taken(
            retries,
            max_retries,
            err,
            request,
            turn_id@,
            debug_build,
            world,
            StreamRetryActionView::SendEvent(event),
        );
    }
    lemma_taken(
        retries,
        max_retries,
        err,
        request,
        turn_id@,
        debug_build,
        world,
        StreamRetryActionView::SwitchFallbackTransport,
    );
    lemma_taken(
        retries,
        max_retries,
        err,
        request,
        turn_id@,
        debug_build,
        world,
        StreamRetryActionView::ReadWebsocketEnabled,
    );
}

/// Exactly where the network is unavailable the user is told that it is waited for, with the
/// failure in words and its status code, and then it is waited for. Where that took time, the log
/// is told that the network has returned.
pub proof fn law_pause_of_a_handling(
    retries: u64,
    max_retries: u64,
    err: CodexErr,
    request: ResponsesStreamRequest,
    turn_id: String,
    debug_build: bool,
    world: Surroundings,
    started: (StreamRetry, StreamRetryAction),
    actions: Seq<StreamRetryActionView>,
    end: u64,
)
    requires
        call_ensures(
            handle_retryable_response_stream_error,
            (max_retries, err, request, turn_id, debug_build),
            started,
        ),
        runs_to(started, retries, world, actions, end),
    ensures
        forall|event: EventMsgView| #[trigger]
            actions.contains(
                StreamRetryActionView::Pause(NetworkPauseActionView::SendEvent(event)),
            ) <==> {
                &&& world.availability == NetworkAvailability::Unavailable
                &&& event == (EventMsgView::StreamError {
                    message: "Waiting for network connection..."@,
                    codex_error_info: Some(
                        CodexErrorInfo::ResponseStreamDisconnected {
                            http_status_code: err.status_code(),
                        },
                    ),
                    additional_details: Some(err.text()),
                })
            },
        actions.contains(StreamRetryActionView::Pause(NetworkPauseActionView::WaitForNetwork))
            <==> world.availability == NetworkAvailability::Unavailable,
        forall|message: Seq<char>| #[trigger]
            actions.contains(
                StreamRetryActionView::Pause(NetworkPauseActionView::WarnNetworkReturned(message)),
            ) <==> {
                &&& world.availability == NetworkAvailability::Unavailable
                &&& world.wait.waited
                &&& message
                    == "local network was unavailable; retrying response stream after network returned"@
            },
        !actions.contains(StreamRetryActionView::Pause(NetworkPauseActionView::Proceed)),
{
    lemma_course(
        retries,
        max_retries,
        err,
        request,
        turn_id,
        debug_build,
        world,
        started,
        actions,
        end,
    );
    assert forall|event: EventMsgView| #[trigger]
        actions.contains(
            StreamRetryActionView::Pause(NetworkPauseActionView::SendEvent(event)),
        ) <==> {
            &&& world.availability == NetworkAvailability::Unavailable
            &&& event == crate::responses_retry::waiting_event(err)
        } by {
        lemma_taken(
            retries,
            max_retries,
            err,
            request,
            turn_id@,
            debug_build,
            world,
            StreamRetryActionView::Pause(NetworkPauseActionView::SendEvent(event)),
        );
    }
    assert forall|message: Seq<char>| #[trigger]
        actions.contains(
            StreamRetryActionView::Pause(NetworkPauseActionView::WarnNetworkReturned(message)),
        ) <==> {
            &&& world.availability == NetworkAvailability::Unavailable
            &&& world.wait.waited
            &&& message == crate::responses_retry::NETWORK_RETURNED_MESSAGE@
        } by {
        lemma_taken(
            retries,
            max_retries,
            err,
            request,
            turn_id@,
            debug_build,
            world,
            StreamRetryActionView::Pause(NetworkPauseActionView::WarnNetworkReturned(message)),
        );
    }
    lemma_taken(
        retries,
        max_retries,
        err,
        request,
        turn_id@,
        debug_build,
        world,
        StreamRetryActionView::Pause(NetworkPauseActionView::WaitForNetwork),
    );
    lemma_taken(
        retries,
        max_retries,
        err,
        request,
        turn_id@,
        debug_build,
        world,
        StreamRetryActionView::Pause(NetworkPauseActionView::Proceed),
    );
}

/// A pause on its own begins with a look at the network. It goes on at once unless the network is
/// unavailable; then the user is told and the network waited for, and the log is told where that
/// took time.
pub proof fn law_pause_on_its_own(
    err: CodexErr,
    started: (NetworkPause, NetworkPauseAction),
    wait: NetworkAvailabilityWait,
)
    requires
        call_ensures(wait_for_network_before_stream_retry, (), started),
    ensures
        started.1@ == NetworkPauseActionView::CheckNetwork,
        forall|availability: NetworkAvailability| #[trigger]
            started.0.expects(NetworkPauseEvent::Checked(availability)),
        NetworkPause::next(
            err,
            NetworkPauseEvent::Checked(NetworkAvailability::Available),
        ).1 == NetworkPauseActionView::Proceed,
        NetworkPause::next(err, NetworkPauseEvent::Checked(NetworkAvailability::Unknown)).1
            == NetworkPauseActionView::Proceed,
        ({
            let (announcing, announce) = NetworkPause::next(
                err,
                NetworkPauseEvent::Checked(NetworkAvailability::Unavailable),
            );
            let (waiting, waits) = NetworkPause::next(err, NetworkPauseEvent::EventSent);
            let (warning, warns) = NetworkPause::next(err, NetworkPauseEvent::NetworkWaited(wait));
            let (_, goes_on) = NetworkPause::next(err, NetworkPauseEvent::Warned);
            &&& announce == NetworkPauseActionView::SendEvent(
                EventMsgView::StreamError {
                    message: "Waiting for network connection..."@,
                    codex_error_info: Some(
                        CodexErrorInfo::ResponseStreamDisconnected {
                            http_status_code: err.status_code(),
                        },
                    ),
                    additional_details: Some(err.text()),
                },
            )
            &&& announcing.expects(NetworkPauseEvent::EventSent)
            &&& waits == NetworkPauseActionView::WaitForNetwork
            &&& waiting.expects(NetworkPauseEvent::NetworkWaited(wait))
            &&& wait.waited ==> warns == NetworkPauseActionView::WarnNetworkReturned(
                "local network was unavailable; retrying response stream after network returned"@,
            )
            &&& wait.waited ==> warning.expects(NetworkPauseEvent::Warned)
            &&& !wait.waited ==> warns == NetworkPauseActionView::Proceed
            &&& goes_on == NetworkPauseActionView::Proceed
        }),
{
}

/// The view of an action keeps everything that the action holds.
pub proof fn law_view_of_an_action(
    event: crate::protocol::EventMsg,
    record: crate::responses_retry::RetryLog,
    message: String,
    err: CodexErr,
    number: u64,
    delay: Duration,
    result: Result<(), CodexErr>,
)
    ensures
        StreamRetryAction::Pause(NetworkPauseAction::CheckNetwork)@
            == StreamRetryActionView::Pause(NetworkPauseActionView::CheckNetwork),
        StreamRetryAction::Pause(NetworkPauseAction::SendEvent(event))@
            == StreamRetryActionView::Pause(NetworkPauseActionView::SendEvent(event@)),
        StreamRetryAction::Pause(NetworkPauseAction::WaitForNetwork)@
            == StreamRetryActionView::Pause(NetworkPauseActionView::WaitForNetwork),
        StreamRetryAction::Pause(NetworkPauseAction::WarnNetworkReturned(message))@
            == StreamRetryActionView::Pause(NetworkPauseActionView::WarnNetworkReturned(message@)),
        StreamRetryAction::Pause(NetworkPauseAction::Proceed)@ == StreamRetryActionView::Pause(
            NetworkPauseActionView::Proceed,
        ),
        StreamRetryAction::SwitchFallbackTransport@
            == StreamRetryActionView::SwitchFallbackTransport,
        StreamRetryAction::SendEvent(event)@ == StreamRetryActionView::SendEvent(event@),
        StreamRetryAction::ReadWebsocketEnabled@ == StreamRetryActionView::ReadWebsocketEnabled,
        StreamRetryAction::ComputeBackoff(number)@ == StreamRetryActionView::ComputeBackoff(number),
        StreamRetryAction::LogRetry(record)@ == StreamRetryActionView::LogRetry(record@),
        (StreamRetryAction::NotifyStreamError { message, err })@ == (
        StreamRetryActionView::NotifyStreamError { message: message@, err }),
        StreamRetryAction::Sleep(delay)@ == StreamRetryActionView::Sleep(delay),
        StreamRetryAction::Return(result)@ == StreamRetryActionView::Return(result),
{
}

/// A pause that asked for an action goes on with what came of that action, and one that is over
/// goes on with nothing.
pub proof fn law_pause_takes_its_answers(err: CodexErr, event: NetworkPauseEvent)
    ensures
        forall|answer: NetworkPauseEvent|
            #![trigger NetworkPause::next(err, event).0.expects(answer)]
            NetworkPause::next(err, event).0.expects(answer) <==> match NetworkPause::next(
                err,
                event,
            ).1 {
                NetworkPauseActionView::CheckNetwork => answer is Checked,
                NetworkPauseActionView::SendEvent(_) => answer is EventSent,
                NetworkPauseActionView::WaitForNetwork => answer is NetworkWaited,
                NetworkPauseActionView::WarnNetworkReturned(_) => answer is Warned,
                NetworkPauseActionView::Proceed => false,
            },
{
}

/// A handling that asked for an action goes on with what came of that action, and one that returned
/// goes on with nothing.
pub proof fn law_handling_takes_its_answers(
    handling: StreamRetry,
    retries: u64,
    event: StreamRetryEvent,
)
    requires
        handling.expects(event),
    ensures
        forall|answer: StreamRetryEvent|
            #![trigger handling.next(retries, event).0.expects(answer)]
            handling.next(retries, event).0.expects(answer) <==> match handling.next(
                retries,
                event,
            ).2 {
                StreamRetryActionView::Pause(asked) => {
                    answer matches StreamRetryEvent::Pause(came) && match asked {
                        NetworkPauseActionView::CheckNetwork => came is Checked,
                        NetworkPauseActionView::SendEvent(_) => came is EventSent,
                        NetworkPauseActionView::WaitForNetwork => came is NetworkWaited,
                        NetworkPauseActionView::WarnNetworkReturned(_) => came is Warned,
                        NetworkPauseActionView::Proceed => false,
                    }
                },
                StreamRetryActionView::SwitchFallbackTransport => answer is FallbackSwitched,
                StreamRetryActionView::SendEvent(_) => answer is EventSent,
                StreamRetryActionView::ReadWebsocketEnabled => answer is WebsocketEnabled,
                StreamRetryActionView::ComputeBackoff(_) => answer is BackoffComputed,
                StreamRetryActionView::LogRetry(_) => answer is Logged,
                StreamRetryActionView::NotifyStreamError { .. } => answer is Notified,
                StreamRetryActionView::Sleep(_) => answer is Slept,
                StreamRetryActionView::Return(_) => false,
            },
{
}

} // verus!
