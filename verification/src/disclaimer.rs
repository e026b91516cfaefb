//! A notice that the user can only close after having had time to read it.

use vstd::prelude::*;
use std::time::{Duration, SystemTime, SystemTimeError};

verus! {

/// A moment of the system clock. Nothing of it is visible here.
#[verifier::external_type_specification]
#[verifier::external_body]
pub struct ExSystemTime(SystemTime);

/// The error of a clock that was set back.
#[verifier::external_type_specification]
#[verifier::external_body]
pub struct ExSystemTimeError(SystemTimeError);

/// `SystemTime::now` reads the clock: nothing is claimed of the result.
pub assume_specification[ SystemTime::now ]() -> SystemTime;

/// `SystemTime::elapsed` compares with the clock: nothing is claimed of the
/// result.
pub assume_specification[ SystemTime::elapsed ](time: &SystemTime) -> Result<
    Duration,
    SystemTimeError,
>;

/// `Duration::as_secs` gives the whole seconds of a duration, of which
/// nothing is visible here: nothing is claimed of the result.
pub assume_specification[ Duration::as_secs ](duration: &Duration) -> u64;

/// The seconds for which a notice stays open at least.
pub const SECONDS_BEFORE_CLOSABLE: u64 = 10;

/// What a notice shows.
#[derive(Clone, Copy, PartialEq, Eq, Debug, Structural)]
pub enum DisclaimerStage {
    /// The notice cannot be closed yet; so many seconds are left.
    Countdown(u64),
    /// The notice offers the button that closes it.
    Closable,
}

/// The stage of a notice that has been open for `elapsed_secs` whole
/// seconds: it counts down from [`SECONDS_BEFORE_CLOSABLE`] to 1, then it
/// can be closed.
pub open spec fn stage_after(elapsed_secs: u64) -> DisclaimerStage {
    if elapsed_secs >= SECONDS_BEFORE_CLOSABLE {
        DisclaimerStage::Closable
    } else {
        DisclaimerStage::Countdown((SECONDS_BEFORE_CLOSABLE - elapsed_secs) as u64)
    }
}

/// The stage of a notice that has been open for `elapsed_secs` whole seconds.
pub fn disclaimer_stage(elapsed_secs: u64) -> (r: DisclaimerStage)
    ensures
        r == stage_after(elapsed_secs),
{
    if elapsed_secs >= SECONDS_BEFORE_CLOSABLE {
        DisclaimerStage::Closable
    } else {
        DisclaimerStage::Countdown(SECONDS_BEFORE_CLOSABLE - elapsed_secs)
    }
}

/// A notice and the moment at which it was first shown.
#[derive(Debug)]
pub struct Disclaimer {
    first_time_showing_it: bool,
    time_when_disclaimer_showed_up: Option<SystemTime>,
}

impl Disclaimer {
    #[verifier::type_invariant]
    spec fn shown_has_a_time(&self) -> bool {
        !self.first_time_showing_it ==> self.time_when_disclaimer_showed_up is Some
    }

    /// The notice has not been shown yet.
    pub closed spec fn is_unseen(&self) -> bool {
        self.first_time_showing_it
    }

    /// The moment at which the notice was first shown, if it was.
    pub closed spec fn shown_at(&self) -> Option<SystemTime> {
        self.time_when_disclaimer_showed_up
    }

    /// A notice that has not been shown yet.
    pub fn new() -> (r: Self)
        ensures
            r.is_unseen(),
            r.shown_at() is None,
    {
        Disclaimer { first_time_showing_it: true, time_when_disclaimer_showed_up: None }
    }

    pub fn first_time_showing_it(&self) -> (r: bool)
        ensures
            r == self.is_unseen(),
    {
        self.first_time_showing_it
    }

    /// Takes note that the notice is shown at the moment `now`. The first
    /// showing keeps the moment; at a later one nothing changes.
    pub fn note_showing(&mut self, now: SystemTime)
        ensures
            !final(self).is_unseen(),
            final(self).shown_at() == if old(self).is_unseen() {
                Some(now)
            } else {
                old(self).shown_at()
            },
    {
        if self.first_time_showing_it {
            *self = Disclaimer {
                first_time_showing_it: false,
                time_when_disclaimer_showed_up: Some(now),
            };
        }
    }
}

/// Shows the notice: the first call reads the clock and keeps the moment,
/// every call then reads the clock and says what to show for the time that
/// has passed since the moment kept. `None` means that the clock was set
/// back behind the first showing, and nothing is shown.
pub fn show(disclaimer: &mut Disclaimer) -> (r: Option<DisclaimerStage>)
    ensures
        !final(disclaimer).is_unseen(),
        final(disclaimer).shown_at() is Some,
        !old(disclaimer).is_unseen() ==> final(disclaimer).shown_at() == old(
            disclaimer,
        ).shown_at(),
        r matches Some(stage) ==> exists|elapsed_secs: u64| stage == stage_after(elapsed_secs),
{
    proof {
        use_type_invariant(&*disclaimer);
    }
    if disclaimer.first_time_showing_it {
        disclaimer.note_showing(SystemTime::now());
    }
    match &disclaimer.time_when_disclaimer_showed_up {
        Some(shown) => match shown.elapsed() {
            Ok(elapsed) => Some(disclaimer_stage(elapsed.as_secs())),
            Err(_) => None,
        },
        None => None,
    }
}

impl Default for Disclaimer {
    fn default() -> (r: Self)
        ensures
            r.is_unseen(),
            r.shown_at() is None,
    {
        Disclaimer::new()
    }
}

} // verus!
