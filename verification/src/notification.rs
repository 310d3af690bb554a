//! Short notices shown at the bottom of the window, some of which expire.
use std::time::{Duration, Instant};
use vstd::prelude::*;

verus! {

/// Declares `std::time::Instant` so that a notice can keep when it was made.
#[verifier::external_type_specification]
#[verifier::external_body]
pub struct ExInstant(Instant);

/// Calls `Instant::now`. Nothing is promised of the value.
#[verifier::external_body]
pub(crate) fn instant_now() -> Instant {
    Instant::now()
}

/// Calls `Instant::elapsed`: the time since `since`. Nothing is promised of the value.
#[verifier::external_body]
fn elapsed_since(since: &Instant) -> Duration {
    since.elapsed()
}

/// Calls `Instant::duration_since`: the time from `earlier` to `later` (none when
/// `later` comes first). Nothing is promised of the value.
#[verifier::external_body]
pub(crate) fn duration_between(earlier: &Instant, later: &Instant) -> Duration {
    later.duration_since(*earlier)
}

/// Calls `Duration::as_secs`: the whole seconds of `d`. Nothing is promised of the value.
#[verifier::external_body]
fn whole_seconds(d: &Duration) -> u64 {
    d.as_secs()
}

/// Calls `Duration::as_millis`: the whole milliseconds of `d`. Nothing is promised of the
/// value.
#[verifier::external_body]
pub(crate) fn whole_millis(d: &Duration) -> u128 {
    d.as_millis()
}

/// A notice, and the number of seconds after which it expires, if it does.
pub struct Notification {
    pub text: String,
    created: Instant,
    expires: Option<u64>,
}

/// Whether a notice that expires after `expires` seconds has expired once `elapsed`
/// whole seconds have passed: only a notice with a limit expires, and only once the
/// limit is passed.
pub open spec fn has_expired(expires: Option<u64>, elapsed: u64) -> bool {
    match expires {
        None => false,
        Some(limit) => elapsed > limit,
    }
}

impl Notification {
    /// The notice's text.
    pub closed spec fn text_view(&self) -> Seq<char> {
        self.text@
    }

    /// The limit after which the notice expires.
    pub closed spec fn expires_view(&self) -> Option<u64> {
        self.expires
    }

    /// A notice that does not expire.
    pub fn new(text: String) -> (r: Self)
        ensures
            r.text_view() == text@,
            r.expires_view() is None,
    {
        Self { text, created: instant_now(), expires: None }
    }

    /// The same notice, expiring `expires` seconds after it was made.
    pub fn expires(self, expires: u64) -> (r: Self)
        ensures
            r.text_view() == self.text_view(),
            r.expires_view() == Some(expires),
    {
        let mut s = self;
        s.expires = Some(expires);
        s
    }

    /// Whether the notice has expired after `elapsed` whole seconds.
    pub fn expired_after(&self, elapsed: u64) -> (r: bool)
        ensures
            r == has_expired(self.expires_view(), elapsed),
    {
        match self.expires {
            None => false,
            Some(expires) => elapsed > expires,
        }
    }

    /// Whether the notice has expired by now. A notice without a limit never does.
    pub fn expired(&self) -> (r: bool)
        ensures
            self.expires_view() is None ==> !r,
            r ==> exists|elapsed: u64| has_expired(self.expires_view(), elapsed),
    {
        match self.expires {
            None => false,
            Some(_) => {
                let elapsed = whole_seconds(&elapsed_since(&self.created));
                self.expired_after(elapsed)
            },
        }
    }
}

/// Expiry is monotone: once a notice has expired, it stays expired.
pub proof fn law_expiry_monotone(expires: Option<u64>, earlier: u64, later: u64)
    requires
        earlier <= later,
        has_expired(expires, earlier),
    ensures
        has_expired(expires, later),
{
}

} // verus!
