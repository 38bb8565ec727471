//! The engine's timer, which paces the walking animation.

use vstd::prelude::*;
use bevy::time::Timer;
use bevy::time::TimerMode;
use std::time::Duration;

verus! {

/// `bevy::time::Timer`. It is carried through as it is: what it holds is
/// known only by the names below.
#[verifier::external_type_specification]
#[verifier::external_body]
pub struct ExTimer(Timer);

/// A new timer that starts over each time `interval_nanos` nanoseconds have
/// passed.
pub uninterp spec fn repeating(interval_nanos: u64) -> Timer;

/// `timer` after `delta_nanos` more nanoseconds.
pub uninterp spec fn ticked(timer: Timer, delta_nanos: u64) -> Timer;

/// Whether `timer` ran out during its last tick.
pub uninterp spec fn ran_out(timer: Timer) -> bool;

/// The time that `timer` has counted since it last started over, in
/// nanoseconds.
pub uninterp spec fn elapsed_nanos(timer: Timer) -> nat;

/// The time after which `timer` runs out, in nanoseconds.
pub uninterp spec fn interval_nanos(timer: Timer) -> nat;

/// Whether `timer` starts over when it has run out, rather than stopping.
pub uninterp spec fn is_repeating(timer: Timer) -> bool;

/// Whether `timer` is paused: a paused timer does not count.
pub uninterp spec fn is_paused(timer: Timer) -> bool;

/// A timer that counts and starts over: it repeats, is not paused, runs out
/// after some time that fits in 64 bits, and has counted less than that.
pub open spec fn keeps_time(timer: Timer) -> bool {
    &&& is_repeating(timer)
    &&& !is_paused(timer)
    &&& 0 < interval_nanos(timer) <= u64::MAX
    &&& elapsed_nanos(timer) < interval_nanos(timer)
}

/// What a timer that keeps time has counted after `delta_nanos` more
/// nanoseconds: what is left over when the whole intervals are taken out.
pub open spec fn elapsed_after(timer: Timer, delta_nanos: u64) -> int {
    (elapsed_nanos(timer) + delta_nanos) % (interval_nanos(timer) as int)
}

/// Whether a timer that keeps time runs out within `delta_nanos` more
/// nanoseconds. It counts how often it ran out in 32 bits, and has run out
/// if that count is not zero.
pub open spec fn runs_out(timer: Timer, delta_nanos: u64) -> bool {
    ((elapsed_nanos(timer) + delta_nanos) / (interval_nanos(timer) as int)) % 0x1_0000_0000 != 0
}

/// `bevy::time::Timer::new` with the repeating mode. The contract gives the
/// new timer a name, and says what the source shows of a new timer: it has
/// counted nothing, runs out after the interval given, repeats, is not
/// paused and has not run out.
#[verifier::external_body]
pub(crate) fn new_repeating(interval_nanos: u64) -> (timer: Timer)
    ensures
        timer == repeating(interval_nanos),
        elapsed_nanos(timer) == 0,
        self::interval_nanos(timer) == interval_nanos,
        is_repeating(timer),
        !is_paused(timer),
        !ran_out(timer),
{
    Timer::new(Duration::from_nanos(interval_nanos), TimerMode::Repeating)
}

/// `bevy::time::Timer::tick`. The contract gives the timer after the call a
/// name, as a function of the timer before it and of the time passed. It
/// says that the interval, the mode and the pause stay as they are. Of a
/// timer that keeps time it says what the source computes: the time counted
/// is added to, the whole intervals in it are taken out, and the timer has
/// run out if their number, cut to 32 bits, is not zero.
#[verifier::external_body]
pub(crate) fn tick(timer: &mut Timer, delta_nanos: u64)
    ensures
        *final(timer) == ticked(*old(timer), delta_nanos),
        interval_nanos(*final(timer)) == interval_nanos(*old(timer)),
        is_repeating(*final(timer)) == is_repeating(*old(timer)),
        is_paused(*final(timer)) == is_paused(*old(timer)),
        keeps_time(*old(timer)) ==> elapsed_nanos(*final(timer)) == elapsed_after(
            *old(timer),
            delta_nanos,
        ),
        keeps_time(*old(timer)) ==> ran_out(*final(timer)) == runs_out(*old(timer), delta_nanos),
{
    timer.tick(Duration::from_nanos(delta_nanos));
}

/// `bevy::time::Timer::just_finished`. The contract gives the answer a name.
#[verifier::external_body]
pub(crate) fn just_finished(timer: &Timer) -> (done: bool)
    ensures
        done == ran_out(*timer),
{
    timer.just_finished()
}

} // verus!
