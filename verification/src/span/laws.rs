//! What holds of every span: it is read back in the unit that it was given in.
use crate::span::Span;
use vstd::prelude::*;

verus! {

/// Seconds are read back as seconds and as a thousand times as many milliseconds, and
/// milliseconds as milliseconds and as whole seconds.
pub proof fn a_span_is_read_back_in_its_unit(n: u64)
    ensures
        forall|s: Span, r: u64|
            #![trigger call_ensures(Span::from_secs, (n,), s), call_ensures(
                Span::as_secs,
                (&s,),
                r,
            )]
            call_ensures(Span::from_secs, (n,), s) && call_ensures(Span::as_secs, (&s,), r) ==> r
                == n,
        forall|s: Span, r: u64|
            #![trigger call_ensures(Span::from_millis, (n,), s), call_ensures(
                Span::as_millis,
                (&s,),
                r,
            )]
            call_ensures(Span::from_millis, (n,), s) && call_ensures(Span::as_millis, (&s,), r)
                ==> r == n,
        forall|s: Span, r: u64|
            #![trigger call_ensures(Span::from_millis, (n,), s), call_ensures(
                Span::as_secs,
                (&s,),
                r,
            )]
            call_ensures(Span::from_millis, (n,), s) && call_ensures(Span::as_secs, (&s,), r) ==> r
                == n / 1000,
        forall|s: Span, r: u64|
            #![trigger call_ensures(Span::from_secs, (n,), s), call_ensures(
                Span::as_millis,
                (&s,),
                r,
            )]
            call_ensures(Span::from_secs, (n,), s) && call_ensures(Span::as_millis, (&s,), r) && n
                * 1000 <= u64::MAX ==> r == n * 1000,
{
}

/// Two spans are one exactly where they are of one length, in whatever unit they were
/// given.
pub proof fn spans_are_one_by_their_length(secs: u64, millis: u64)
    ensures
        forall|a: Span, b: Span, r: bool|
            #![trigger call_ensures(Span::from_secs, (secs,), a), call_ensures(
                Span::from_millis,
                (millis,),
                b,
            ), call_ensures(Span::equals, (&a, &b), r)]
            call_ensures(Span::from_secs, (secs,), a) && call_ensures(
                Span::from_millis,
                (millis,),
                b,
            ) && call_ensures(Span::equals, (&a, &b), r) ==> (r <==> secs * 1000 == millis),
{
}

} // verus!
