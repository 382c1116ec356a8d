//! The length of the fade, as given on the command line and as the surface
//! wants it.

use vstd::prelude::*;

verus! {

/// Seconds the fade lasts when the command line names no duration.
pub const DEFAULT_TRANSITION_DURATION: u32 = 10;

/// Milliseconds in one second.
pub const MILLIS_PER_SECOND: u32 = 1000;

/// The largest number of seconds whose milliseconds still fit the surface's
/// 32-bit duration.
pub const MAX_TRANSITION_SECONDS: u32 = 4_294_967;

/// A duration in seconds, in milliseconds.
pub open spec fn millis_of(seconds: int) -> int {
    seconds * 1000
}

/// Whether a duration in seconds can be handed to the surface, whose
/// duration is a 32-bit count of milliseconds.
pub open spec fn fits_surface(seconds: int) -> bool {
    0 <= seconds && millis_of(seconds) <= u32::MAX
}

/// The seconds that a `--duration` option stands for: the default where the
/// option is absent, else the number given.
pub open spec fn requested_seconds(option: Option<i32>) -> int {
    match option {
        None => DEFAULT_TRANSITION_DURATION as int,
        Some(seconds) => seconds as int,
    }
}

/// Converts a fade duration from seconds to the milliseconds that the
/// surface is configured with.
pub fn transition_millis(seconds: u32) -> (millis: u32)
    requires
        fits_surface(seconds as int),
    ensures
        millis as int == millis_of(seconds as int),
{
    seconds * MILLIS_PER_SECOND
}

/// The surface's fade duration for a `--duration` option as parsed from the
/// command line: the option's seconds, or the default, in milliseconds.
/// `None` where the option is negative or its milliseconds do not fit.
pub fn configured_transition_millis(option: Option<i32>) -> (millis: Option<u32>)
    ensures
        fits_surface(requested_seconds(option)) ==> millis == Some(
            millis_of(requested_seconds(option)) as u32,
        ),
        !fits_surface(requested_seconds(option)) ==> millis is None,
{
    match option {
        None => Some(transition_millis(DEFAULT_TRANSITION_DURATION)),
        Some(seconds) => {
            if seconds < 0 {
                None
            } else if seconds as u32 <= MAX_TRANSITION_SECONDS {
                Some(transition_millis(seconds as u32))
            } else {
                None
            }
        },
    }
}

/// Seconds to milliseconds and back gives the seconds again, and the
/// milliseconds of a whole number of seconds hold no fraction of a second.
pub proof fn lemma_millis_round_trip(seconds: int)
    requires
        0 <= seconds,
    ensures
        millis_of(seconds) / 1000 == seconds,
        millis_of(seconds) % 1000 == 0,
        0 <= millis_of(seconds),
{
}

} // verus!
