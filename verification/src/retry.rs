//! Which failed requests are tried again, how often, and after what delay.

use crate::duration::Duration;
use crate::error::{is_server_error, TransportError, TOO_MANY_REQUESTS};
use crate::network_availability::NetworkAvailabilityWait;
use vstd::prelude::*;

verus! {

/// How a request is tried again.
#[derive(Debug, Clone, Copy)]
pub struct RetryPolicy {
    /// How often the request may be tried after its first attempt.
    pub max_attempts: u64,
    /// The delay that the backoff starts from.
    pub base_delay: Duration,
    pub retry_on: RetryOn,
}

/// The failures after which a request is tried again.
#[derive(Debug, Clone, Copy)]
pub struct RetryOn {
    /// The server asks for fewer requests.
    pub retry_429: bool,
    /// The server failed.
    pub retry_5xx: bool,
    /// No answer came.
    pub retry_transport: bool,
}

impl RetryOn {
    /// Whether `err` is one of the failures after which a request is tried again.
    pub open spec fn covers(self, err: TransportError) -> bool {
        match err {
            TransportError::Http { status, .. } => {
                ||| self.retry_429 && status == TOO_MANY_REQUESTS
                ||| self.retry_5xx && crate::error::server_error_status(status)
            },
            TransportError::Timeout => self.retry_transport,
            TransportError::Network(_) => self.retry_transport,
            TransportError::RetryLimit => false,
            TransportError::Build(_) => false,
        }
    }

    /// Whether attempt number `attempt`, which failed with `err`, is followed by another. The
    /// first attempt is number 0.
    pub fn should_retry(&self, err: &TransportError, attempt: u64, max_attempts: u64) -> (again:
        bool)
        ensures
            again == (attempt < max_attempts && self.covers(*err)),
    {
        if attempt >= max_attempts {
            return false;
        }
        match err {
            TransportError::Http { status, .. } => {
                (self.retry_429 && *status == TOO_MANY_REQUESTS) || (self.retry_5xx
                    && is_server_error(*status))
            },
            TransportError::Timeout | TransportError::Network(_) => self.retry_transport,
            _ => false,
        }
    }
}

/// A delay before the next attempt.
#[derive(Debug, Clone, Copy, PartialEq, Eq)]
pub enum Backoff {
    /// Exactly this long.
    Exact(Duration),
    /// About this long: the actual delay is `jittered_delay` of this number of milliseconds
    /// times a random factor close to one.
    Jittered { nominal_millis: u64 },
}

/// `n`, or the greatest `u64` where that is less.
pub open spec fn saturated(n: nat) -> nat {
    if n <= u64::MAX {
        n
    } else {
        u64::MAX as nat
    }
}

/// Whether a backoff is defined for attempt number `attempt`. Only the lower 32 bits of the
/// number count, and for a retry they must not all be zero.
pub open spec fn has_backoff(attempt: u64) -> bool {
    attempt == 0 || attempt % 0x1_0000_0000 != 0
}

/// The whole milliseconds in `span`, as far as a `u64` counts them: above that it starts again
/// from zero.
pub open spec fn millis_of(span: Duration) -> nat {
    span@ / 1_000_000 % 0x1_0000_0000_0000_0000
}

/// The backoff before attempt number `attempt`, in milliseconds: the base delay, doubled for
/// each attempt after the first retry, and never more than a `u64` holds.
pub open spec fn nominal_backoff(base: Duration, attempt: u64) -> nat {
    let doublings = (attempt % 0x1_0000_0000 - 1) as nat;
    saturated(millis_of(base) * saturated(vstd::arithmetic::power2::pow2(doublings)))
}

/// Two to the power `exponent`, or the greatest `u64` where that is less.
fn saturating_power_of_two(exponent: u32) -> (power: u64)
    ensures
        power == saturated(vstd::arithmetic::power2::pow2(exponent as nat)),
{
    if exponent < 64 {
        proof {
            vstd::bits::lemma_u64_pow2_no_overflow(exponent as nat);
            vstd::bits::lemma_u64_shl_is_mul(1, exponent as u64);
        }
        1u64 << (exponent as u64)
    } else {
        proof {
            vstd::arithmetic::power2::lemma2_to64();
            if exponent > 64 {
                vstd::arithmetic::power2::lemma_pow2_strictly_increases(64, exponent as nat);
            }
        }
        u64::MAX
    }
}

/// The product of `a` and `b`, or the greatest `u64` where that is less.
fn saturating_product(a: u64, b: u64) -> (product: u64)
    ensures
        product == saturated((a * b) as nat),
{
    match a.checked_mul(b) {
        Some(product) => product,
        None => u64::MAX,
    }
}

/// The delay before attempt number `attempt`: the base delay itself for number 0, and a
/// jittered one that doubles from attempt to attempt for the others.
pub fn backoff(base: Duration, attempt: u64) -> (delay: Backoff)
    requires
        has_backoff(attempt),
    ensures
        attempt == 0 ==> delay == Backoff::Exact(base),
        attempt != 0 ==> {
            &&& delay is Jittered
            &&& delay->nominal_millis == nominal_backoff(base, attempt)
        },
{
    if attempt == 0 {
        return Backoff::Exact(base);
    }
    let retry: u32 = attempt as u32;
    assert(attempt as u32 == attempt % 0x1_0000_0000) by (bit_vector);
    let factor: u64 = saturating_power_of_two(retry - 1);
    let whole_millis: u128 = base.as_millis();
    let millis: u64 = whole_millis as u64;
    assert(whole_millis as u64 == whole_millis % 0x1_0000_0000_0000_0000) by (bit_vector);
    Backoff::Jittered { nominal_millis: saturating_product(millis, factor) }
}

/// The delay before attempt number `attempt`, for programs in which the arithmetic on that number
/// wraps around: where `backoff` is not defined, the base delay was doubled as often as can be.
pub fn wrapping_backoff(base: Duration, attempt: u64) -> (delay: Backoff)
    ensures
        attempt == 0 ==> delay == Backoff::Exact(base),
        attempt != 0 ==> {
            &&& delay is Jittered
            &&& delay->nominal_millis == if has_backoff(attempt) {
                nominal_backoff(base, attempt)
            } else {
                saturated(millis_of(base) * u64::MAX as nat)
            }
        },
{
    if attempt == 0 || attempt % 0x1_0000_0000 != 0 {
        backoff(base, attempt)
    } else {
        proof {
            vstd::arithmetic::power2::lemma2_to64();
            vstd::arithmetic::power2::lemma_pow2_strictly_increases(64, 0xffff_fffe);
        }
        backoff(base, 0xffff_ffff)
    }
}

/// The delay of a jittered backoff that came to `millis` milliseconds.
pub fn jittered_delay(millis: u64) -> (delay: Duration)
    ensures
        delay@ == millis * 1_000_000,
{
    Duration::from_millis(millis)
}

/// Whether the attempt of number `i`, which ended with `outcome`, is followed by another.
pub open spec fn is_retried<T>(
    policy: RetryPolicy,
    i: int,
    outcome: Result<T, TransportError>,
) -> bool {
    &&& i < policy.max_attempts
    &&& outcome matches Err(err) && policy.retry_on.covers(err)
}

/// How far a request that may be tried again has come.
#[derive(Debug, Clone, Copy, PartialEq, Eq, Structural)]
pub enum RetryPhase {
    Attempting,
    WaitingForNetwork,
    BackingOff,
    Finished,
}

/// What a request that may be tried again asks for next.
#[derive(Debug, PartialEq, Eq)]
pub enum RetryAction<T> {
    /// Build the request and send it, as the attempt of this number.
    Attempt(u64),
    /// Wait until the network is no longer unavailable.
    WaitForNetwork,
    /// Sleep for the backoff of these.
    SleepBackoff { base: Duration, attempt: u64 },
    /// Return this.
    Return(Result<T, TransportError>),
}

/// What came of an action of a request that may be tried again.
#[derive(Debug, PartialEq, Eq)]
pub enum RetryEvent<T> {
    AttemptEnded(Result<T, TransportError>),
    NetworkWaited(NetworkAvailabilityWait),
    Slept,
}

/// A request that may be tried again, while it runs.
#[derive(Debug, Clone, Copy)]
pub struct RetryLoop {
    pub policy: RetryPolicy,
    /// The number of the attempt that was made last. The first attempt is number 0.
    pub attempt: u64,
    pub phase: RetryPhase,
}

impl RetryLoop {
    /// No attempt has a number above the policy's limit, and there is one left while the next
    /// is prepared.
    pub open spec fn well_formed(self) -> bool {
        &&& self.attempt <= self.policy.max_attempts
        &&& self.phase is WaitingForNetwork || self.phase is BackingOff ==> self.attempt
            < self.policy.max_attempts
    }

    /// Whether `event` is an answer to the action that was asked for last.
    pub open spec fn expects<T>(self, event: RetryEvent<T>) -> bool {
        match event {
            RetryEvent::AttemptEnded(_) => self.phase is Attempting,
            RetryEvent::NetworkWaited(_) => self.phase is WaitingForNetwork,
            RetryEvent::Slept => self.phase is BackingOff,
        }
    }

    /// The loop in phase `phase`.
    pub open spec fn at(self, phase: RetryPhase) -> RetryLoop {
        RetryLoop { phase, ..self }
    }

    /// What the loop becomes after `event`, and what it asks for then.
    pub open spec fn next<T>(self, event: RetryEvent<T>) -> (RetryLoop, RetryAction<T>) {
        match event {
            RetryEvent::AttemptEnded(outcome) => if is_retried(
                self.policy,
                self.attempt as int,
                outcome,
            ) {
                (self.at(RetryPhase::WaitingForNetwork), RetryAction::WaitForNetwork)
            } else {
                (self.at(RetryPhase::Finished), RetryAction::Return(outcome))
            },
            RetryEvent::NetworkWaited(_) => (
                self.at(RetryPhase::BackingOff),
                RetryAction::SleepBackoff {
                    base: self.policy.base_delay,
                    attempt: (self.attempt + 1) as u64,
                },
            ),
            RetryEvent::Slept => (
                RetryLoop {
                    policy: self.policy,
                    attempt: (self.attempt + 1) as u64,
                    phase: RetryPhase::Attempting,
                },
                RetryAction::Attempt((self.attempt + 1) as u64),
            ),
        }
    }

    /// Takes what came of the last action and says what to do next. How a wait for the network
    /// ended makes no difference.
    pub fn step<T>(&mut self, event: RetryEvent<T>) -> (action: RetryAction<T>)
        requires
            old(self).well_formed(),
            old(self).expects(event),
        ensures
            (*final(self), action) == old(self).next(event),
            final(self).well_formed(),
    {
        match event {
            RetryEvent::AttemptEnded(Ok(response)) => {
                self.phase = RetryPhase::Finished;
                RetryAction::Return(Ok(response))
            },
            RetryEvent::AttemptEnded(Err(err)) => {
                if self.policy.retry_on.should_retry(&err, self.attempt, self.policy.max_attempts) {
                    self.phase = RetryPhase::WaitingForNetwork;
                    return RetryAction::WaitForNetwork;
                }
                self.phase = RetryPhase::Finished;
                RetryAction::Return(Err(err))
            },
            RetryEvent::NetworkWaited(_) => {
                self.phase = RetryPhase::BackingOff;
                RetryAction::SleepBackoff {
                    base: self.policy.base_delay,
                    attempt: self.attempt + 1,
                }
            },
            RetryEvent::Slept => {
                self.attempt = self.attempt + 1;
                self.phase = RetryPhase::Attempting;
                RetryAction::Attempt(self.attempt)
            },
        }
    }
}

/// The loop of a request under `policy`, before its first attempt ended.
pub open spec fn started_loop(policy: RetryPolicy) -> RetryLoop {
    RetryLoop { policy, attempt: 0, phase: RetryPhase::Attempting }
}

/// Starts a request that is tried again as `policy` says.
pub fn run_with_retry<T>(policy: RetryPolicy) -> (started: (RetryLoop, RetryAction<T>))
    ensures
        started.0 == started_loop(policy),
        started.0.well_formed(),
        started.1 == RetryAction::<T>::Attempt(0),
{
    (RetryLoop { policy, attempt: 0, phase: RetryPhase::Attempting }, RetryAction::Attempt(0))
}

/// The first retry is backed off by the base delay.
pub proof fn law_first_backoff_is_the_base_delay(base: Duration)
    ensures
        nominal_backoff(base, 1) == millis_of(base),
{
    vstd::arithmetic::power2::lemma2_to64();
    let millis = millis_of(base);
    let factor = saturated(vstd::arithmetic::power2::pow2(0));
    assert(millis * factor == millis) by (nonlinear_arith)
        requires
            factor == 1,
    ;
}

/// From one retry to the next the backoff doubles, up to the greatest delay there is.
pub proof fn law_backoff_doubles(base: Duration, attempt: u64)
    requires
        0 < attempt < u64::MAX,
        has_backoff(attempt),
        has_backoff((attempt + 1) as u64),
    ensures
        nominal_backoff(base, (attempt + 1) as u64) == saturated(
            2 * nominal_backoff(base, attempt),
        ),
{
    let doublings = (attempt % 0x1_0000_0000 - 1) as nat;
    let power = vstd::arithmetic::power2::pow2(doublings);
    let millis = millis_of(base);
    assert((attempt + 1) as u64 % 0x1_0000_0000 - 1 == doublings + 1);
    vstd::arithmetic::power2::lemma_pow2_unfold(doublings + 1);
    vstd::arithmetic::power2::lemma_pow2_pos(doublings);
    let greatest = u64::MAX as nat;
    assert(saturated(millis * saturated(2 * power)) == saturated(
        2 * saturated(millis * saturated(power)),
    )) by {
        if millis == 0 {
            assert(millis * saturated(2 * power) == 0) by (nonlinear_arith)
                requires
                    millis == 0,
            ;
            assert(millis * saturated(power) == 0) by (nonlinear_arith)
                requires
                    millis == 0,
            ;
        } else if 2 * power <= greatest {
            assert(millis * (2 * power) == 2 * (millis * power)) by (nonlinear_arith);
        } else {
            let factor = saturated(power);
            assert(2 * factor >= greatest);
            assert(millis * greatest >= greatest) by (nonlinear_arith)
                requires
                    millis >= 1,
            ;
            assert(2 * (millis * factor) >= greatest) by (nonlinear_arith)
                requires
                    millis >= 1,
                    2 * factor >= greatest,
            ;
        }
    }
}

/// A later retry is never backed off less than an earlier one, as long as the numbers of both
/// fit in 32 bits.
pub proof fn law_backoff_never_shrinks(base: Duration, earlier: u64, later: u64)
    requires
        0 < earlier <= later < 0x1_0000_0000,
    ensures
        nominal_backoff(base, earlier) <= nominal_backoff(base, later),
    decreases later - earlier,
{
    if earlier < later {
        law_backoff_never_shrinks(base, earlier, (later - 1) as u64);
        law_backoff_doubles(base, (later - 1) as u64);
    }
}

/// Whether `millis` is `nominal` times a factor that is at most a fifth away from one, with what
/// is left of a millisecond cut off. The factors that are drawn are at most a tenth away from
/// one; the rest is room for the rounding of the product.
pub open spec fn within_jitter(nominal: nat, millis: u64) -> bool {
    5 * millis <= 6 * nominal && 5 * (millis + 1) > 4 * nominal
}

/// However two retries in a row are jittered, the later is not delayed less than the earlier, as
/// long as the backoff of the later is not cut off at the greatest there is.
pub proof fn law_jitter_keeps_the_order(
    base: Duration,
    attempt: u64,
    earlier_millis: u64,
    later_millis: u64,
)
    requires
        0 < attempt < u64::MAX,
        has_backoff(attempt),
        has_backoff((attempt + 1) as u64),
        2 * nominal_backoff(base, attempt) <= u64::MAX,
        within_jitter(nominal_backoff(base, attempt), earlier_millis),
        within_jitter(nominal_backoff(base, (attempt + 1) as u64), later_millis),
    ensures
        earlier_millis <= later_millis,
{
    law_backoff_doubles(base, attempt);
}

/// A request under `policy` after `rounds` attempts that were each followed by another, and
/// everything that it asked for on the way. Attempt number `i` ended with `outcomes[i]`, and
/// the wait for the network after it with `waits[i]`.
pub open spec fn after_rounds<T>(
    policy: RetryPolicy,
    outcomes: Seq<Result<T, TransportError>>,
    waits: Seq<NetworkAvailabilityWait>,
    rounds: nat,
) -> (RetryLoop, Seq<RetryAction<T>>)
    decreases rounds,
{
    if rounds == 0 {
        (started_loop(policy), seq![RetryAction::Attempt(0)])
    } else {
        let i = rounds - 1;
        let (attempting, actions) = after_rounds(policy, outcomes, waits, i as nat);
        let (waiting, first) = attempting.next(RetryEvent::AttemptEnded(outcomes[i]));
        let (backing_off, second) = waiting.next::<T>(RetryEvent::NetworkWaited(waits[i]));
        let (again, third) = backing_off.next::<T>(RetryEvent::Slept);
        (again, actions + seq![first, second, third])
    }
}

/// While every attempt is followed by another, the attempts are numbered from 0 without a gap,
/// and between two of them come first a wait for the network and then, whatever the wait
/// showed, the backoff of the attempt to come. There are never more than the policy allows.
pub proof fn law_rounds_of_a_retried_request<T>(
    policy: RetryPolicy,
    outcomes: Seq<Result<T, TransportError>>,
    waits: Seq<NetworkAvailabilityWait>,
    rounds: nat,
)
    requires
        rounds <= outcomes.len(),
        rounds <= waits.len(),
        forall|i: int| 0 <= i < rounds ==> is_retried(policy, i, #[trigger] outcomes[i]),
    ensures
        rounds <= policy.max_attempts,
        after_rounds(policy, outcomes, waits, rounds).0 == (RetryLoop {
            policy,
            attempt: rounds as u64,
            phase: RetryPhase::Attempting,
        }),
        after_rounds(policy, outcomes, waits, rounds).1.len() == 3 * rounds + 1,
        after_rounds(policy, outcomes, waits, rounds).1[0] == RetryAction::<T>::Attempt(0),
        forall|i: int|
            0 <= i < rounds ==> {
                let actions = #[trigger] after_rounds(policy, outcomes, waits, rounds).1.skip(
                    3 * i + 1,
                ).take(3);
                actions == seq![
                    RetryAction::<T>::WaitForNetwork,
                    RetryAction::SleepBackoff { base: policy.base_delay, attempt: (i + 1) as u64 },
                    RetryAction::Attempt((i + 1) as u64),
                ]
            },
    decreases rounds,
{
    if rounds > 0 {
        let before = (rounds - 1) as nat;
        law_rounds_of_a_retried_request(policy, outcomes, waits, before);
        assert(is_retried(policy, before as int, outcomes[before as int]));
        let earlier = after_rounds(policy, outcomes, waits, before).1;
        let all = after_rounds(policy, outcomes, waits, rounds).1;
        assert forall|i: int| 0 <= i < rounds implies #[trigger] all.skip(3 * i + 1).take(3)
            == seq![
            RetryAction::<T>::WaitForNetwork,
            RetryAction::SleepBackoff { base: policy.base_delay, attempt: (i + 1) as u64 },
            RetryAction::Attempt((i + 1) as u64),
        ] by {
            if i < before {
                assert(all.skip(3 * i + 1).take(3) =~= earlier.skip(3 * i + 1).take(3));
            }
        }
    }
}

/// The first attempt that is not followed by another decides: what it ended with is returned
/// as it is. The loop adds no failure of its own.
pub proof fn law_last_outcome_is_returned<T>(
    policy: RetryPolicy,
    outcomes: Seq<Result<T, TransportError>>,
    waits: Seq<NetworkAvailabilityWait>,
    last: nat,
)
    requires
        last < outcomes.len(),
        last <= waits.len(),
        forall|i: int| 0 <= i < last ==> is_retried(policy, i, #[trigger] outcomes[i]),
        !is_retried(policy, last as int, outcomes[last as int]),
    ensures
        after_rounds(policy, outcomes, waits, last).0.next(
            RetryEvent::AttemptEnded(outcomes[last as int]),
        ).1 == RetryAction::Return(outcomes[last as int]),
{
    law_rounds_of_a_retried_request(policy, outcomes, waits, last);
}

/// A request comes to an end after at most `max_attempts` retries, whatever its attempts end
/// with.
pub proof fn law_request_ends<T>(policy: RetryPolicy, outcomes: Seq<Result<T, TransportError>>)
    requires
        outcomes.len() == policy.max_attempts + 1,
    ensures
        exists|last: int|
            {
                &&& 0 <= last <= policy.max_attempts
                &&& !is_retried(policy, last, #[trigger] outcomes[last])
                &&& forall|i: int| 0 <= i < last ==> is_retried(policy, i, #[trigger] outcomes[i])
            },
{
    lemma_first_not_retried(policy, outcomes, policy.max_attempts as int);
}

/// Up to an attempt that is not retried there is a first one.
proof fn lemma_first_not_retried<T>(
    policy: RetryPolicy,
    outcomes: Seq<Result<T, TransportError>>,
    known: int,
)
    requires
        0 <= known < outcomes.len(),
        !is_retried(policy, known, outcomes[known]),
    ensures
        exists|last: int|
            {
                &&& 0 <= last <= known
                &&& !is_retried(policy, last, #[trigger] outcomes[last])
                &&& forall|i: int| 0 <= i < last ==> is_retried(policy, i, #[trigger] outcomes[i])
            },
    decreases known,
{
    if exists|i: int| 0 <= i < known && !is_retried(policy, i, #[trigger] outcomes[i]) {
        let i = choose|i: int| 0 <= i < known && !is_retried(policy, i, #[trigger] outcomes[i]);
        lemma_first_not_retried(policy, outcomes, i);
        let last = choose|last: int|
            {
                &&& 0 <= last <= i
                &&& !is_retried(policy, last, #[trigger] outcomes[last])
                &&& forall|j: int| 0 <= j < last ==> is_retried(policy, j, #[trigger] outcomes[j])
            };
        assert(0 <= last <= known && !is_retried(policy, last, outcomes[last]));
    } else {
        assert(0 <= known <= known && !is_retried(policy, known, outcomes[known]));
    }
}

/// A request that asked for an action goes on with what came of that action, and one that
/// returned goes on with nothing.
pub proof fn law_request_takes_its_answers<T>(request: RetryLoop, event: RetryEvent<T>)
    requires
        request.expects(event),
    ensures
        forall|answer: RetryEvent<T>|
            #![trigger request.next(event).0.expects(answer)]
            request.next(event).0.expects(answer) <==> match request.next(event).1 {
                RetryAction::Attempt(_) => answer is AttemptEnded,
                RetryAction::WaitForNetwork => answer is NetworkWaited,
                RetryAction::SleepBackoff { .. } => answer is Slept,
                RetryAction::Return(_) => false,
            },
{
}

/// How a wait for the network ended makes no difference to a request.
pub proof fn law_network_wait_never_blocks<T>(
    request: RetryLoop,
    one: NetworkAvailabilityWait,
    other: NetworkAvailabilityWait,
)
    ensures
        request.next::<T>(RetryEvent::NetworkWaited(one)) == request.next::<T>(
            RetryEvent::NetworkWaited(other),
        ),
{
}

/// An answer with a status is tried again, while attempts are left, exactly where it is 429 and
/// the policy tries that again, or one of the five hundreds and the policy tries those again.
pub proof fn law_answers_tried_again(
    retry_on: RetryOn,
    status: u16,
    body: Option<String>,
    attempt: u64,
    max_attempts: u64,
    again: bool,
)
    requires
        call_ensures(
            RetryOn::should_retry,
            (&retry_on, &(TransportError::Http { status, body }), attempt, max_attempts),
            again,
        ),
    ensures
        again <==> attempt < max_attempts && {
            ||| retry_on.retry_429 && status == 429
            ||| retry_on.retry_5xx && 500 <= status <= 599
        },
{
}

/// A request without an answer is tried again, while attempts are left, exactly where the policy
/// says so. Nothing else is ever tried again.
pub proof fn law_missing_answers_tried_again(
    retry_on: RetryOn,
    reason: String,
    attempt: u64,
    max_attempts: u64,
    after_timeout: bool,
    after_network: bool,
    after_limit: bool,
    after_build: bool,
)
    requires
        call_ensures(
            RetryOn::should_retry,
            (&retry_on, &TransportError::Timeout, attempt, max_attempts),
            after_timeout,
        ),
        call_ensures(
            RetryOn::should_retry,
            (&retry_on, &TransportError::Network(reason), attempt, max_attempts),
            after_network,
        ),
        call_ensures(
            RetryOn::should_retry,
            (&retry_on, &TransportError::RetryLimit, attempt, max_attempts),
            after_limit,
        ),
        call_ensures(
            RetryOn::should_retry,
            (&retry_on, &TransportError::Build(reason), attempt, max_attempts),
            after_build,
        ),
    ensures
        after_timeout <==> attempt < max_attempts && retry_on.retry_transport,
        after_network <==> attempt < max_attempts && retry_on.retry_transport,
        !after_limit,
        !after_build,
{
}

/// Allowing more failures or more attempts never stops a retry.
pub proof fn law_wider_policy_retries_more(
    narrow: RetryOn,
    wide: RetryOn,
    err: TransportError,
    attempt: u64,
    few: u64,
    many: u64,
    narrowly: bool,
    widely: bool,
)
    requires
        narrow.retry_429 ==> wide.retry_429,
        narrow.retry_5xx ==> wide.retry_5xx,
        narrow.retry_transport ==> wide.retry_transport,
        few <= many,
        call_ensures(RetryOn::should_retry, (&narrow, &err, attempt, few), narrowly),
        call_ensures(RetryOn::should_retry, (&wide, &err, attempt, many), widely),
    ensures
        narrowly ==> widely,
{
}

/// A request starts with attempt number 0.
pub proof fn law_begin_of_a_request<T>(policy: RetryPolicy, started: (RetryLoop, RetryAction<T>))
    requires
        call_ensures(run_with_retry::<T>, (policy,), started),
    ensures
        started.1 == RetryAction::<T>::Attempt(0),
        started.0.policy == policy,
        started.0.attempt == 0,
        started.0.phase == RetryPhase::Attempting,
        forall|answer: RetryEvent<T>| #[trigger]
            started.0.expects(answer) <==> answer is AttemptEnded,
{
}

/// A response is returned at once, whatever the policy says.
pub proof fn law_response_is_returned<T>(request: RetryLoop, response: T)
    ensures
        request.next(RetryEvent::AttemptEnded(Ok(response))).0.policy == request.policy,
        request.next(RetryEvent::AttemptEnded(Ok(response))).0.attempt == request.attempt,
        request.next(RetryEvent::AttemptEnded(Ok(response))).0.phase == RetryPhase::Finished,
        request.next(RetryEvent::AttemptEnded(Ok(response))).1 == RetryAction::Return(
            Ok::<T, TransportError>(response),
        ),
{
}

/// After an answer with a status of 429, where the policy tries that again, or one of the five
/// hundreds, where the policy tries those again, a request with attempts left waits for the
/// network and keeps its policy and its count. After any other status, or without attempts left,
/// it returns the failure.
pub proof fn law_request_after_an_answer<T>(request: RetryLoop, status: u16, body: Option<String>)
    ensures
        ({
            let policy = request.policy;
            let err = TransportError::Http { status, body };
            let (after, action) = request.next::<T>(RetryEvent::AttemptEnded(Err(err)));
            let again = request.attempt < policy.max_attempts && {
                ||| policy.retry_on.retry_429 && status == 429
                ||| policy.retry_on.retry_5xx && 500 <= status <= 599
            };
            &&& again ==> action == RetryAction::<T>::WaitForNetwork
            &&& !again ==> action == RetryAction::<T>::Return(Err(err))
            &&& after.phase == if again {
                RetryPhase::WaitingForNetwork
            } else {
                RetryPhase::Finished
            }
            &&& after.policy == policy
            &&& after.attempt == request.attempt
        }),
{
}

/// After a timeout or a failed connection, where the policy tries those again, a request with
/// attempts left waits for the network and keeps its policy and its count. Otherwise it returns
/// the failure.
pub proof fn law_request_without_an_answer<T>(request: RetryLoop, reason: String)
    ensures
        ({
            let policy = request.policy;
            let again = request.attempt < policy.max_attempts && policy.retry_on.retry_transport;
            let lost = TransportError::Network(reason);
            let (after_timeout, timeout_action) = request.next::<T>(
                RetryEvent::AttemptEnded(Err(TransportError::Timeout)),
            );
            let (after_loss, loss_action) = request.next::<T>(RetryEvent::AttemptEnded(Err(lost)));
            &&& again ==> timeout_action == RetryAction::<T>::WaitForNetwork
            &&& again ==> loss_action == RetryAction::<T>::WaitForNetwork
            &&& !again ==> timeout_action == RetryAction::<T>::Return(Err(TransportError::Timeout))
            &&& !again ==> loss_action == RetryAction::<T>::Return(Err(lost))
            &&& after_timeout.phase == if again {
                RetryPhase::WaitingForNetwork
            } else {
                RetryPhase::Finished
            }
            &&& after_timeout == after_loss
            &&& after_timeout.policy == policy
            &&& after_timeout.attempt == request.attempt
        }),
{
}

/// A request that could not be built, or that ran into a limit of its own, is returned at once.
pub proof fn law_request_that_cannot_succeed<T>(request: RetryLoop, reason: String)
    ensures
        request.next::<T>(RetryEvent::AttemptEnded(Err(TransportError::RetryLimit))).1
            == RetryAction::<T>::Return(Err(TransportError::RetryLimit)),
        request.next::<T>(RetryEvent::AttemptEnded(Err(TransportError::Build(reason)))).1
            == RetryAction::<T>::Return(Err(TransportError::Build(reason))),
        request.next::<T>(RetryEvent::AttemptEnded(Err(TransportError::RetryLimit))).0.phase
            == RetryPhase::Finished,
        request.next::<T>(RetryEvent::AttemptEnded(Err(TransportError::Build(reason)))).0.phase
            == RetryPhase::Finished,
{
}

/// After its wait for the network a request sleeps for the backoff of the attempt to come, counted
/// from the policy's base delay, and after that it makes this attempt.
pub proof fn law_request_between_attempts<T>(request: RetryLoop, wait: NetworkAvailabilityWait)
    requires
        request.attempt < request.policy.max_attempts,
    ensures
        ({
            let (backing_off, sleep) = request.next::<T>(RetryEvent::NetworkWaited(wait));
            let (again, attempt) = backing_off.next::<T>(RetryEvent::Slept);
            &&& sleep matches RetryAction::SleepBackoff { base, attempt: number } && base
                == request.policy.base_delay && number == request.attempt + 1
            &&& backing_off.attempt == request.attempt
            &&& backing_off.policy == request.policy
            &&& backing_off.phase == RetryPhase::BackingOff
            &&& attempt matches RetryAction::Attempt(number) && number == request.attempt + 1
            &&& again.attempt == request.attempt + 1
            &&& again.policy == request.policy
            &&& again.phase == RetryPhase::Attempting
        }),
{
}

/// The backoff before a retry is the base delay in whole milliseconds, times two to the number of
/// retries before it, or the greatest `u64` where that is less. The first attempt is not jittered.
pub proof fn law_length_of_a_backoff(
    base: Duration,
    attempt: u64,
    immediate: Backoff,
    delay: Backoff,
)
    requires
        base@ / 1_000_000 <= u64::MAX,
        0 < attempt < 0x1_0000_0000,
        call_ensures(backoff, (base, 0), immediate),
        call_ensures(backoff, (base, attempt), delay),
    ensures
        immediate == Backoff::Exact(base),
        ({
            let product = base@ / 1_000_000 * vstd::arithmetic::power2::pow2((attempt - 1) as nat);
            delay matches Backoff::Jittered { nominal_millis } && nominal_millis == if product
                <= u64::MAX {
                product
            } else {
                u64::MAX as nat
            }
        }),
{
    lemma_backoff_product(base, attempt);
}

/// The backoff before the first retry is the base delay in whole milliseconds, and that before any
/// other retry is twice the one before it, or the greatest `u64` where that is less.
pub proof fn law_backoff_from_retry_to_retry(
    base: Duration,
    attempt: u64,
    first: Backoff,
    earlier: Backoff,
    later: Backoff,
)
    requires
        base@ / 1_000_000 <= u64::MAX,
        0 < attempt < 0xffff_ffff,
        call_ensures(backoff, (base, 1), first),
        call_ensures(backoff, (base, attempt), earlier),
        call_ensures(backoff, (base, (attempt + 1) as u64), later),
    ensures
        first matches Backoff::Jittered { nominal_millis } && nominal_millis == base@ / 1_000_000,
        earlier matches Backoff::Jittered { nominal_millis: before } && later
            matches Backoff::Jittered { nominal_millis: after } && after == if 2 * before
            <= u64::MAX {
            2 * before
        } else {
            u64::MAX as int
        },
{
    law_first_backoff_is_the_base_delay(base);
    law_backoff_doubles(base, attempt);
}

/// A backoff counts the lower 32 bits of the attempt's number, and the lower 64 bits of the base
/// delay's milliseconds.
pub proof fn law_backoff_counts_lower_bits(
    base: Duration,
    attempt: u64,
    short: Duration,
    low: u64,
    delay: Backoff,
    low_delay: Backoff,
)
    requires
        attempt % 0x1_0000_0000 != 0,
        low == attempt % 0x1_0000_0000,
        short@ / 1_000_000 == base@ / 1_000_000 % 0x1_0000_0000_0000_0000,
        call_ensures(backoff, (base, attempt), delay),
        call_ensures(backoff, (short, low), low_delay),
    ensures
        delay matches Backoff::Jittered { nominal_millis: one } && low_delay
            matches Backoff::Jittered { nominal_millis: other } && one == other,
{
    assert(low % 0x1_0000_0000 == low);
    assert(millis_of(short) == millis_of(base));
}

/// A backoff is there for every attempt but those, after the first, of whose number the lower 32
/// bits are all zero.
pub proof fn law_attempts_with_a_backoff(base: Duration, attempt: u64)
    requires
        attempt == 0 || attempt % 0x1_0000_0000 != 0,
    ensures
        call_requires(backoff, (base, attempt)),
{
}

/// The wrapping backoff is the backoff wherever there is one, and the greatest delay of all
/// otherwise, unless the lower 64 bits of the base delay's milliseconds are all zero.
pub proof fn law_wrapping_backoff(base: Duration, attempt: u64, wrapping: Backoff, plain: Backoff)
    requires
        call_ensures(wrapping_backoff, (base, attempt), wrapping),
        attempt == 0 || attempt % 0x1_0000_0000 != 0 ==> call_ensures(
            backoff,
            (base, attempt),
            plain,
        ),
    ensures
        attempt == 0 || attempt % 0x1_0000_0000 != 0 ==> wrapping == plain,
        attempt != 0 && attempt % 0x1_0000_0000 == 0 ==> {
            wrapping matches Backoff::Jittered { nominal_millis } && nominal_millis == if base@
                / 1_000_000 % 0x1_0000_0000_0000_0000 == 0 {
                0
            } else {
                u64::MAX
            }
        },
{
    let millis = base@ / 1_000_000 % 0x1_0000_0000_0000_0000;
    let greatest = u64::MAX as nat;
    if millis == 0 {
        assert(millis * greatest == 0) by (nonlinear_arith)
            requires
                millis == 0,
        ;
    } else {
        assert(millis * greatest >= greatest) by (nonlinear_arith)
            requires
                millis >= 1,
        ;
    }
}

/// Where every attempt fails in a way that the policy tries again, by 429, by one of the five
/// hundreds or for want of an answer, there are exactly as many retries as the policy allows, and
/// what the last of them ended with is returned.
pub proof fn law_lasting_failure<T>(
    policy: RetryPolicy,
    outcomes: Seq<Result<T, TransportError>>,
    waits: Seq<NetworkAvailabilityWait>,
)
    requires
        outcomes.len() == policy.max_attempts + 1,
        waits.len() == policy.max_attempts,
        forall|i: int|
            0 <= i < outcomes.len() ==> (#[trigger] outcomes[i] matches Err(err) && match err {
                TransportError::Http { status, .. } => {
                    ||| policy.retry_on.retry_429 && status == 429
                    ||| policy.retry_on.retry_5xx && 500 <= status <= 599
                },
                TransportError::Timeout => policy.retry_on.retry_transport,
                TransportError::Network(_) => policy.retry_on.retry_transport,
                _ => false,
            }),
    ensures
        ({
            let last = policy.max_attempts;
            let (request, actions) = after_rounds(policy, outcomes, waits, last as nat);
            &&& request.attempt == last
            &&& request.phase == RetryPhase::Attempting
            &&& actions.len() == 3 * last + 1
            &&& actions.last() == RetryAction::<T>::Attempt(last)
            &&& request.next(RetryEvent::AttemptEnded(outcomes[last as int])).1
                == RetryAction::Return(outcomes[last as int])
        }),
{
    let last = policy.max_attempts;
    assert forall|i: int| 0 <= i < last implies is_retried(
        policy,
        i,
        #[trigger] outcomes[i],
    ) by {}
    law_rounds_of_a_retried_request(policy, outcomes, waits, last as nat);
    law_last_outcome_is_returned(policy, outcomes, waits, last as nat);
}

/// The delay of a jittered backoff has as many milliseconds as the backoff came to.
pub proof fn law_jittered_delay(millis: u64, delay: Duration, counted: u128)
    requires
        call_ensures(jittered_delay, (millis,), delay),
        call_ensures(Duration::as_millis, (&delay,), counted),
    ensures
        counted == millis,
        delay@ == 1_000_000 * millis,
{
}

/// Every delay that is at most a tenth away from its nominal one counts as jittered.
pub proof fn law_room_for_jitter(nominal: nat, millis: u64)
    requires
        10 * millis <= 11 * nominal,
        10 * (millis + 1) > 9 * nominal,
    ensures
        within_jitter(nominal, millis),
{
}

/// The nominal backoff as one product that is cut off once.
proof fn lemma_backoff_product(base: Duration, attempt: u64)
    requires
        base@ / 1_000_000 <= u64::MAX,
        0 < attempt < 0x1_0000_0000,
    ensures
        nominal_backoff(base, attempt) == saturated(
            base@ / 1_000_000 * vstd::arithmetic::power2::pow2((attempt - 1) as nat),
        ),
{
    let millis = base@ / 1_000_000;
    let power = vstd::arithmetic::power2::pow2((attempt - 1) as nat);
    let greatest = u64::MAX as nat;
    assert(millis_of(base) == millis);
    if power > greatest {
        if millis == 0 {
            assert(millis * greatest == 0 && millis * power == 0) by (nonlinear_arith)
                requires
                    millis == 0,
            ;
        } else {
            assert(millis * greatest >= greatest && millis * power > greatest) by (nonlinear_arith)
                requires
                    millis >= 1,
                    power > greatest,
            ;
        }
    }
}

} // verus!
