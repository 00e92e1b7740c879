//! Spans of time, counted in whole nanoseconds.

use vstd::prelude::*;

verus! {

/// A span of time: whole seconds, and the nanoseconds of the second that has begun.
///
/// Its view is the number of nanoseconds in the span.
#[derive(Debug, Clone, Copy, PartialEq, Eq)]
pub struct Duration {
    secs: u64,
    nanos: u32,
}

impl View for Duration {
    type V = nat;

    closed spec fn view(&self) -> nat {
        (self.secs * 1_000_000_000 + self.nanos) as nat
    }
}

impl Duration {
    /// The part below one second is always less than one second.
    #[verifier::type_invariant]
    pub closed spec fn well_formed(self) -> bool {
        self.nanos < 1_000_000_000
    }

    /// A span of `secs` seconds and `nanos` nanoseconds.
    pub fn new(secs: u64, nanos: u32) -> (span: Duration)
        requires
            nanos < 1_000_000_000,
        ensures
            span@ == secs * 1_000_000_000 + nanos,
    {
        Duration { secs, nanos }
    }

    /// The empty span.
    pub fn zero() -> (span: Duration)
        ensures
            span@ == 0,
    {
        Duration { secs: 0, nanos: 0 }
    }

    /// A span of `secs` seconds.
    pub fn from_secs(secs: u64) -> (span: Duration)
        ensures
            span@ == secs * 1_000_000_000,
    {
        Duration { secs, nanos: 0 }
    }

    /// A span of `millis` milliseconds.
    pub fn from_millis(millis: u64) -> (span: Duration)
        ensures
            span@ == millis * 1_000_000,
    {
        let secs: u64 = millis / 1_000;
        let rest: u32 = (millis % 1_000) as u32;
        Duration { secs, nanos: rest * 1_000_000 }
    }

    /// The whole seconds in the span.
    pub fn as_secs(&self) -> (secs: u64)
        ensures
            secs == self@ / 1_000_000_000,
    {
        proof {
            use_type_invariant(self);
        }
        self.secs
    }

    /// The nanoseconds of the span that are left over from its whole seconds.
    pub fn subsec_nanos(&self) -> (nanos: u32)
        ensures
            nanos == self@ % 1_000_000_000,
    {
        proof {
            use_type_invariant(self);
        }
        self.nanos
    }

    /// The whole milliseconds in the span.
    pub fn as_millis(&self) -> (millis: u128)
        ensures
            millis == self@ / 1_000_000,
    {
        proof {
            use_type_invariant(self);
        }
        let whole: u128 = self.secs as u128 * 1_000;
        let rest: u32 = self.nanos / 1_000_000;
        whole + rest as u128
    }

    /// The span in words, as the standard library writes one.
    pub open spec fn text(self) -> Seq<char> {
        debug_text((self@ / 1_000_000_000) as u64, (self@ % 1_000_000_000) as u32)
    }

    /// The span in words, as the standard library writes one.
    pub fn to_debug_string(&self) -> (text: String)
        ensures
            text@ == self.text(),
    {
        delay_text(self.as_secs(), self.subsec_nanos())
    }
}

/// How the standard library writes a span of `secs` seconds and `nanos` nanoseconds, as
/// `delay_text` gets it.
pub uninterp spec fn debug_text(secs: u64, nanos: u32) -> Seq<char>;

/// The text that `{:?}` makes of the `std::time::Duration` of `secs` seconds and `nanos`
/// nanoseconds, by the `Debug` impl of that type. All that is claimed of the text is that the
/// two numbers alone decide it. `Duration::new` does not panic, as `nanos` carries nothing over
/// into the seconds.
#[verifier::external_body]
fn delay_text(secs: u64, nanos: u32) -> (text: String)
    requires
        nanos < 1_000_000_000,
    ensures
        text@ == debug_text(secs, nanos),
{
    format!("{:?}", std::time::Duration::new(secs, nanos))
}

/// A span is known by its length: two spans of as many nanoseconds are the same span.
pub proof fn law_duration_is_its_length(a: Duration, b: Duration)
    requires
        a.well_formed(),
        b.well_formed(),
        a@ == b@,
    ensures
        a == b,
{
}

/// A span that was made of seconds and nanoseconds gives both back, and has a thousand
/// milliseconds for each second and one for each million nanoseconds.
pub proof fn law_span_of_parts(
    secs: u64,
    nanos: u32,
    span: Duration,
    whole: u64,
    rest: u32,
    millis: u128,
)
    requires
        nanos < 1_000_000_000,
        call_ensures(Duration::new, (secs, nanos), span),
        call_ensures(Duration::as_secs, (&span,), whole),
        call_ensures(Duration::subsec_nanos, (&span,), rest),
        call_ensures(Duration::as_millis, (&span,), millis),
    ensures
        call_requires(Duration::new, (secs, nanos)),
        whole == secs,
        rest == nanos,
        millis == secs * 1_000 + nanos / 1_000_000,
{
}

/// A span that was made of milliseconds has as many of them, and nothing more.
pub proof fn law_span_of_millis(
    millis: u64,
    span: Duration,
    whole: u64,
    rest: u32,
    counted: u128,
)
    requires
        call_ensures(Duration::from_millis, (millis,), span),
        call_ensures(Duration::as_secs, (&span,), whole),
        call_ensures(Duration::subsec_nanos, (&span,), rest),
        call_ensures(Duration::as_millis, (&span,), counted),
    ensures
        counted == millis,
        1_000 * whole <= millis < 1_000 * (whole + 1),
        1_000_000_000 * whole + rest == 1_000_000 * millis,
{
}

/// A span that was made of seconds has as many of them, and nothing more. The empty span has
/// none.
pub proof fn law_span_of_secs(secs: u64, span: Duration, whole: u64, rest: u32, zero: Duration)
    requires
        call_ensures(Duration::from_secs, (secs,), span),
        call_ensures(Duration::as_secs, (&span,), whole),
        call_ensures(Duration::subsec_nanos, (&span,), rest),
        call_ensures(Duration::zero, (), zero),
    ensures
        whole == secs,
        rest == 0,
        span@ == 1_000_000_000 * secs,
        zero@ == 0,
{
}

/// The text of a span of known parts.
pub(crate) proof fn lemma_text_of_parts(secs: u64, nanos: u32, span: Duration)
    requires
        nanos < 1_000_000_000,
        span@ == secs * 1_000_000_000 + nanos,
    ensures
        span.text() == debug_text(secs, nanos),
{
}

/// The text of a span is the one that the standard library gives to the seconds and nanoseconds
/// that the span was made of.
pub proof fn law_text_of_a_span(secs: u64, nanos: u32, span: Duration, text: String)
    requires
        nanos < 1_000_000_000,
        call_ensures(Duration::new, (secs, nanos), span),
        call_ensures(Duration::to_debug_string, (&span,), text),
    ensures
        text@ == debug_text(secs, nanos),
        span.text() == debug_text(secs, nanos),
{
}

} // verus!
