//! The colour scene: a disc whose colour swings between orange and blue.

use vstd::prelude::*;
use vstd::arithmetic::div_mod::lemma_fundamental_div_mod_converse;
use crate::common::{back_hint, spawn_back_hint};
use crate::components::{ColorPulse, TestSceneEntity};
use crate::engine::{Color, Text, Transform, Vec2};
use crate::state::AppState;
use crate::units::ONE;
use crate::world::{Bundle, Entity, World};

verus! {

/// The radius of the disc: 50 pixels.
pub const RADIUS: i64 = 50 * ONE;

/// Half of a colour channel.
pub const HALF: i64 = 500_000_000;

/// The end of the swing at which the disc starts.
pub open spec fn orange() -> Color {
    Color::srgb_spec(ONE, HALF, 0)
}

/// The other end of the swing.
pub open spec fn blue() -> Color {
    Color::srgb_spec(0, HALF, ONE)
}

/// The disc as the scene starts: orange, in the middle of the window, with
/// its phase at zero.
pub open spec fn pulse_entity() -> Entity {
    Entity {
        marker: Some(AppState::TestScene),
        bundle: Bundle::PulseShape {
            radius: RADIUS,
            color: orange(),
            transform: Transform::from_scale(ONE),
            pulse: ColorPulse { timer: 0 },
        },
    }
}

/// The line that says what the scene shows.
pub open spec fn test_caption() -> Entity {
    Entity {
        marker: Some(AppState::TestScene),
        bundle: Bundle::Caption(
            Text {
                content: "Test Scene: Color Pulse Circle",
                font_size: 24,
                color: Color::white(),
            },
        ),
    }
}

/// The entities of the colour scene.
pub open spec fn test_entities() -> Seq<Entity> {
    seq![pulse_entity(), test_caption(), back_hint(AppState::TestScene)]
}

/// Builds the colour scene: adds its entities to the world, after those
/// that are there.
pub fn setup_test_scene(world: &mut World)
    ensures
        final(world).entities@ == old(world).entities@ + test_entities(),
        final(world).state == old(world).state,
        final(world).next_state == old(world).next_state,
        final(world).card_images == old(world).card_images,
{
    world.spawn(
        Entity {
            marker: Some(AppState::TestScene),
            bundle: Bundle::PulseShape {
                radius: RADIUS,
                color: Color::srgb(ONE, HALF, 0),
                transform: Transform {
                    translation: Vec2 { x: 0, y: 0 },
                    scale: Vec2 { x: ONE, y: ONE },
                },
                pulse: ColorPulse { timer: 0 },
            },
        },
    );
    world.spawn(
        Entity {
            marker: Some(AppState::TestScene),
            bundle: Bundle::Caption(
                Text {
                    content: "Test Scene: Color Pulse Circle",
                    font_size: 24,
                    color: Color::srgb(ONE, ONE, ONE),
                },
            ),
        },
    );
    spawn_back_hint(world, TestSceneEntity);
}

/// The phase after `delta_nanos` more nanoseconds. It stops at the largest
/// number that it can hold.
pub open spec fn aged(pulse: ColorPulse, delta_nanos: u64) -> ColorPulse {
    if pulse.timer + delta_nanos > u64::MAX {
        ColorPulse { timer: u64::MAX }
    } else {
        ColorPulse { timer: (pulse.timer + delta_nanos) as u64 }
    }
}

/// Moves the phase of the colour on by a frame that lasted `delta_nanos`.
/// The colour of the frame is [`pulse_color`] of the sine of the new phase,
/// taken in seconds.
pub fn test_scene_update(delta_nanos: u64, pulse: &mut ColorPulse)
    ensures
        *final(pulse) == aged(*old(pulse), delta_nanos),
{
    pulse.timer = if delta_nanos > u64::MAX - pulse.timer {
        u64::MAX
    } else {
        pulse.timer + delta_nanos
    };
}

/// A channel between its value `from` at one end of the swing and its value
/// `to` at the other. `sine` says where the swing is, from -[`ONE`] at the
/// first end to [`ONE`] at the second.
///
/// In whole units this is `from * (1 - t) + to * t` with
/// `t = (sine + 1) / 2`, rounded down to a billionth.
pub open spec fn mix(from: int, to: int, sine: int) -> int {
    (from * (ONE - sine) + to * (ONE + sine)) / (2 * ONE)
}

/// The colour of the disc where the sine of its phase is `sine`.
pub open spec fn pulse_color_spec(sine: i64) -> Color {
    Color {
        r: mix(orange().r as int, blue().r as int, sine as int) as i64,
        g: HALF,
        b: mix(orange().b as int, blue().b as int, sine as int) as i64,
        a: ONE,
    }
}

/// A channel that swings from [`ONE`] to 0 is half of what the sine lacks to
/// [`ONE`], one that swings from 0 to [`ONE`] is half of what the sine is
/// above -[`ONE`], each rounded down, and one that both ends have at
/// [`HALF`] stays there.
pub proof fn lemma_mix_ends(sine: int)
    requires
        -ONE <= sine <= ONE,
    ensures
        mix(ONE as int, 0, sine) == (ONE - sine) / 2,
        mix(0, ONE as int, sine) == (ONE + sine) / 2,
        mix(HALF as int, HALF as int, sine) == HALF,
{
    let fall = ONE - sine;
    let rise = ONE + sine;
    assert(ONE * fall + 0 * rise == (fall / 2) * (2 * ONE) + ONE * (fall % 2)) by (nonlinear_arith)
        requires
            fall == 2 * (fall / 2) + fall % 2,
    ;
    lemma_fundamental_div_mod_converse(
        ONE * fall + 0 * rise,
        2 * ONE,
        fall / 2,
        ONE * (fall % 2),
    );
    assert(0 * fall + ONE * rise == (rise / 2) * (2 * ONE) + ONE * (rise % 2)) by (nonlinear_arith)
        requires
            rise == 2 * (rise / 2) + rise % 2,
    ;
    lemma_fundamental_div_mod_converse(
        0 * fall + ONE * rise,
        2 * ONE,
        rise / 2,
        ONE * (rise % 2),
    );
    assert(HALF * fall + HALF * rise == HALF * (2 * ONE) + 0) by (nonlinear_arith)
        requires
            fall + rise == 2 * ONE,
    ;
    lemma_fundamental_div_mod_converse(HALF * fall + HALF * rise, 2 * ONE, HALF as int, 0);
}

/// Whatever the phase, every channel of the disc's colour lies between 0
/// and [`ONE`], and green is what both ends of the swing have. Where the
/// sine is at its lowest the colour is the orange end, and where it is at
/// its highest the blue end.
pub proof fn lemma_pulse_color(sine: i64)
    requires
        -ONE <= sine <= ONE,
    ensures
        pulse_color_spec(sine).in_range(),
        pulse_color_spec(sine).g == orange().g,
        pulse_color_spec(sine).g == blue().g,
        pulse_color_spec(sine).g == mix(orange().g as int, blue().g as int, sine as int),
        sine == -ONE ==> pulse_color_spec(sine) == orange(),
        sine == ONE ==> pulse_color_spec(sine) == blue(),
{
    lemma_mix_ends(sine as int);
}

/// The colour has no jumps: where the sine grows, red falls and blue rises,
/// each by half as much, give or take the rounding to a billionth.
pub proof fn lemma_pulse_color_steady(low: i64, high: i64)
    requires
        -ONE <= low <= high <= ONE,
    ensures
        pulse_color_spec(high).r <= pulse_color_spec(low).r,
        pulse_color_spec(low).b <= pulse_color_spec(high).b,
        2 * (pulse_color_spec(low).r - pulse_color_spec(high).r) <= high - low + 1,
        2 * (pulse_color_spec(high).b - pulse_color_spec(low).b) <= high - low + 1,
{
    lemma_mix_ends(low as int);
    lemma_mix_ends(high as int);
}

fn mix_channel(from: i64, to: i64, sine: i64) -> (channel: i64)
    requires
        0 <= from <= ONE,
        0 <= to <= ONE,
        -ONE <= sine <= ONE,
    ensures
        channel == mix(from as int, to as int, sine as int),
        0 <= channel <= ONE,
{
    assert(0 <= from * (ONE - sine) <= 2_000_000_000_000_000_000) by (nonlinear_arith)
        requires
            0 <= from <= 1_000_000_000,
            0 <= ONE - sine <= 2_000_000_000,
    ;
    assert(0 <= to * (ONE + sine) <= 2_000_000_000_000_000_000) by (nonlinear_arith)
        requires
            0 <= to <= 1_000_000_000,
            0 <= ONE + sine <= 2_000_000_000,
    ;
    assert(from * (ONE - sine) + to * (ONE + sine) <= 2 * ONE * ONE) by (nonlinear_arith)
        requires
            0 <= from <= ONE,
            0 <= to <= ONE,
            -ONE <= sine <= ONE,
            ONE == 1_000_000_000,
    ;
    let low: i64 = from * (ONE - sine);
    let high: i64 = to * (ONE + sine);
    (low + high) / (2 * ONE)
}

/// The colour of the disc where the sine of its phase is `sine`, in
/// billionths: red and blue swing against each other between the orange end
/// and the blue end, and green stays where both ends have it.
pub fn pulse_color(sine: i64) -> (color: Color)
    requires
        -ONE <= sine <= ONE,
    ensures
        color == pulse_color_spec(sine),
        color.in_range(),
{
    let r: i64 = mix_channel(ONE, 0, sine);
    let g: i64 = HALF;
    let b: i64 = mix_channel(0, ONE, sine);
    Color::srgb(r, g, b)
}

} // verus!
