//! The claims of a JSON web token, and the instants they name.
use vstd::prelude::*;

verus! {

/// Nanoseconds in a second.
pub const NANOS_PER_SEC: u32 = 1000000000;

/// The registered claims that a token carries.
#[derive(Debug)]
pub struct Claims {
    /// Audience.
    pub aud: String,
    /// Expiration time, in seconds since the Unix epoch.
    pub exp: usize,
    /// Issued-at time, in seconds since the Unix epoch.
    pub iat: usize,
    /// Issuer.
    pub iss: String,
    /// Not-before time, in seconds since the Unix epoch.
    pub nbf: usize,
    /// Subject.
    pub sub: String,
}

impl Claims {
    pub fn new(aud: &str, exp: usize, iat: usize, iss: &str, nbf: usize, sub: &str) -> (r: Self)
        ensures
            r.aud@ == aud@,
            r.exp == exp,
            r.iat == iat,
            r.iss@ == iss@,
            r.nbf == nbf,
            r.sub@ == sub@,
    {
        Claims { aud: aud.to_owned(), exp, iat, iss: iss.to_owned(), nbf, sub: sub.to_owned() }
    }
}

/// A span of time, or an instant as the span since the Unix epoch.
#[derive(Debug, Clone, Copy, PartialEq, Eq, Structural)]
pub struct Span {
    pub secs: u64,
    pub nanos: u32,
}

impl Span {
    /// Whether the nanosecond part is below one second.
    pub open spec fn wf(self) -> bool {
        self.nanos < NANOS_PER_SEC
    }
}

/// The whole seconds since the epoch of the instant `delay` after `now`.
pub open spec fn secs_after(now: Span, delay: Span) -> int {
    now.secs + delay.secs + (now.nanos + delay.nanos) / (NANOS_PER_SEC as int)
}

/// The whole seconds since the epoch of the instant `delay` after `now`, or
/// `None` when that count does not fit a `usize`.
pub fn timestamp_after(now: Span, delay: Span) -> (r: Option<usize>)
    requires
        now.wf(),
        delay.wf(),
    ensures
        secs_after(now, delay) <= usize::MAX ==> r == Some(secs_after(now, delay) as usize),
        secs_after(now, delay) > usize::MAX ==> r is None,
{
    let carry: u64 = if now.nanos as u64 + delay.nanos as u64 >= NANOS_PER_SEC as u64 {
        1
    } else {
        0
    };
    if now.secs > u64::MAX - delay.secs || now.secs + delay.secs > u64::MAX - carry {
        return None;
    }
    let total: u64 = now.secs + delay.secs + carry;
    if total > usize::MAX as u64 {
        return None;
    }
    Some(total as usize)
}

/// The claims of a token issued at `now`: each time is `now` shifted by its
/// delay; `None` when a time does not fit a `usize`.
pub fn claims_at(
    now: Span,
    sub: &str,
    aud: &str,
    exp: Span,
    iat: Span,
    iss: &str,
    nbf: Span,
) -> (r: Option<Claims>)
    requires
        now.wf(),
        exp.wf(),
        iat.wf(),
        nbf.wf(),
    ensures
        secs_after(now, exp) <= usize::MAX && secs_after(now, iat) <= usize::MAX && secs_after(
            now,
            nbf,
        ) <= usize::MAX ==> (r matches Some(c) && c.sub@ == sub@ && c.aud@ == aud@ && c.iss@ == iss@
            && c.exp == secs_after(now, exp) && c.iat == secs_after(now, iat) && c.nbf == secs_after(
            now,
            nbf,
        )),
        !(secs_after(now, exp) <= usize::MAX && secs_after(now, iat) <= usize::MAX && secs_after(
            now,
            nbf,
        ) <= usize::MAX) ==> r is None,
{
    let exp = match timestamp_after(now, exp) {
        Some(t) => t,
        None => return None,
    };
    let iat = match timestamp_after(now, iat) {
        Some(t) => t,
        None => return None,
    };
    let nbf = match timestamp_after(now, nbf) {
        Some(t) => t,
        None => return None,
    };
    Some(Claims::new(aud, exp, iat, iss, nbf, sub))
}

} // verus!
