//! The walking scene: a sprite that the keyboard moves, and that walks on
//! the spot of its sprite sheet while it moves.

use vstd::prelude::*;
use vstd::arithmetic::div_mod::lemma_mod_pos_bound;
use bevy::time::Timer;
use bevy::input::ButtonInput;
use bevy::input::keyboard::KeyCode;
use crate::common::{back_hint, spawn_back_hint};
use crate::components::{
    AnimationIndices, AnimationTimer, Direction, Player, Sign, SquirrelSceneEntity,
};
use crate::constants::{
    ANIMATE_ONLY_WHEN_MOVING, ANIMATION_SPEED, FLIP_SPRITE_ON_DIRECTION, MOVE_SPEED,
    SPRITE_COLUMNS, SPRITE_SCALE, X_BOUND, Y_BOUND,
};
use crate::engine::{Image, Sprite, Transform, Vec2};
use crate::input::{pressed, pressed_keys, Key};
use crate::state::AppState;
use crate::timer::{
    elapsed_after, elapsed_nanos, interval_nanos, is_paused, is_repeating, just_finished,
    keeps_time, ran_out, repeating, runs_out, tick, ticked,
};
use crate::units::{
    clamp, clamp_spec, floor_sqrt, isqrt, lemma_floor_sqrt_exists, lemma_floor_sqrt_lower,
    lemma_square_monotonic,
};
use crate::world::{Bundle, Entity, World};

verus! {

/// The frames of the walking animation: the whole first row of the sheet.
pub open spec fn walking_frames() -> AnimationIndices {
    AnimationIndices { first: 0, last: (SPRITE_COLUMNS - 1) as usize }
}

/// The player as the scene starts: at rest, and turned down and to the
/// right.
pub open spec fn new_player() -> Player {
    Player { is_moving: false, last_direction: Direction { x: Sign::Plus, y: Sign::Minus } }
}

/// The player's entity as the scene starts: in the middle of the window, on
/// the first frame of the animation.
pub open spec fn squirrel_entity() -> Entity {
    Entity {
        marker: Some(AppState::SquirrelWalking),
        bundle: Bundle::Squirrel {
            sprite: Sprite {
                image: Image::SquirrelSheet,
                flip_x: false,
                atlas_index: Some(walking_frames().first),
                custom_size: None,
            },
            transform: Transform::from_scale(SPRITE_SCALE),
            indices: walking_frames(),
            timer: AnimationTimer(repeating(ANIMATION_SPEED)),
            player: new_player(),
        },
    }
}

/// The entities of the walking scene.
pub open spec fn squirrel_entities() -> Seq<Entity> {
    seq![squirrel_entity(), back_hint(AppState::SquirrelWalking)]
}

/// Builds the walking scene: adds its entities to the world, after those
/// that are there.
pub fn setup_squirrel_scene(world: &mut World)
    ensures
        final(world).entities@ == old(world).entities@ + squirrel_entities(),
        keeps_time(repeating(ANIMATION_SPEED)),
        elapsed_nanos(repeating(ANIMATION_SPEED)) == 0,
        interval_nanos(repeating(ANIMATION_SPEED)) == ANIMATION_SPEED,
        !ran_out(repeating(ANIMATION_SPEED)),
        final(world).state == old(world).state,
        final(world).next_state == old(world).next_state,
        final(world).card_images == old(world).card_images,
{
    let animation_indices = AnimationIndices { first: 0, last: SPRITE_COLUMNS - 1 };
    world.spawn(
        Entity {
            marker: Some(AppState::SquirrelWalking),
            bundle: Bundle::Squirrel {
                sprite: Sprite {
                    image: Image::SquirrelSheet,
                    flip_x: false,
                    atlas_index: Some(animation_indices.first),
                    custom_size: None,
                },
                transform: Transform {
                    translation: Vec2 { x: 0, y: 0 },
                    scale: Vec2 { x: SPRITE_SCALE, y: SPRITE_SCALE },
                },
                indices: animation_indices,
                timer: AnimationTimer::new(ANIMATION_SPEED),
                player: Player {
                    is_moving: false,
                    last_direction: Direction { x: Sign::Plus, y: Sign::Minus },
                },
            },
        },
    );
    spawn_back_hint(world, SquirrelSceneEntity);
}

/// The sign along an axis when the key towards its positive end and the key
/// towards its negative end are or are not held. Two keys held against each
/// other cancel out.
pub open spec fn axis(positive: bool, negative: bool) -> Sign {
    if positive && !negative {
        Sign::Plus
    } else if negative && !positive {
        Sign::Minus
    } else {
        Sign::Zero
    }
}

/// The direction that the four ways of the keyboard ask for.
pub open spec fn direction_of(up: bool, down: bool, left: bool, right: bool) -> Direction {
    Direction { x: axis(right, left), y: axis(up, down) }
}

/// The direction that the held keys ask for. W and the up arrow both mean
/// up, and so on for the other three ways.
pub open spec fn input_direction(keys: Set<Key>) -> Direction {
    direction_of(
        keys.contains(Key::KeyW) || keys.contains(Key::ArrowUp),
        keys.contains(Key::KeyS) || keys.contains(Key::ArrowDown),
        keys.contains(Key::KeyA) || keys.contains(Key::ArrowLeft),
        keys.contains(Key::KeyD) || keys.contains(Key::ArrowRight),
    )
}

fn axis_sign(positive: bool, negative: bool) -> (sign: Sign)
    ensures
        sign == axis(positive, negative),
{
    if positive && !negative {
        Sign::Plus
    } else if negative && !positive {
        Sign::Minus
    } else {
        Sign::Zero
    }
}

/// The direction that the four ways of the keyboard ask for.
pub fn direction_from_keys(up: bool, down: bool, left: bool, right: bool) -> (direction: Direction)
    ensures
        direction == direction_of(up, down, left, right),
{
    Direction { x: axis_sign(right, left), y: axis_sign(up, down) }
}

/// The direction that the keys held on the keyboard ask for.
pub fn read_direction(keyboard_input: &ButtonInput<KeyCode>) -> (direction: Direction)
    ensures
        direction == input_direction(pressed_keys(*keyboard_input)),
{
    let up: bool = pressed(keyboard_input, Key::KeyW) || pressed(keyboard_input, Key::ArrowUp);
    let down: bool = pressed(keyboard_input, Key::KeyS) || pressed(
        keyboard_input,
        Key::ArrowDown,
    );
    let left: bool = pressed(keyboard_input, Key::KeyA) || pressed(
        keyboard_input,
        Key::ArrowLeft,
    );
    let right: bool = pressed(keyboard_input, Key::KeyD) || pressed(
        keyboard_input,
        Key::ArrowRight,
    );
    direction_from_keys(up, down, left, right)
}

/// The way made in `delta_nanos` nanoseconds at the walking speed, in
/// billionths of a pixel.
pub open spec fn travel(delta_nanos: u64) -> nat {
    (MOVE_SPEED * delta_nanos) as nat
}

/// The way made along each axis on which the direction is not zero. Along
/// one axis alone it is the whole way. Along both at once it is the way
/// divided by the square root of two, rounded down, so that the way made in
/// the plane is the same.
pub open spec fn axis_travel(direction: Direction, delta_nanos: u64) -> nat {
    if direction.is_diagonal() {
        floor_sqrt(travel(delta_nanos) * travel(delta_nanos) / 2)
    } else {
        travel(delta_nanos)
    }
}

/// A coordinate after the move: the old one plus the way made along its
/// axis, held within `bound` of the centre.
pub open spec fn moved(old: i64, sign: Sign, step: nat, bound: i64) -> int {
    clamp_spec(old + sign.value() * step, -bound, bound as int)
}

/// The transform after a frame of `delta_nanos` nanoseconds in which the
/// keys ask for `direction`. Without a direction nothing moves, and nothing
/// is held within the bounds either.
pub open spec fn walked(transform: Transform, direction: Direction, delta_nanos: u64) -> Transform {
    if direction.is_zero() {
        transform
    } else {
        let step = axis_travel(direction, delta_nanos);
        Transform {
            translation: Vec2 {
                x: moved(transform.translation.x, direction.x, step, X_BOUND) as i64,
                y: moved(transform.translation.y, direction.y, step, Y_BOUND) as i64,
            },
            ..transform
        }
    }
}

/// The sprite after a frame in which the keys ask for `direction`: it looks
/// the way it walks, and keeps its facing when it walks straight up or
/// down, or not at all.
pub open spec fn faced(sprite: Sprite, direction: Direction) -> Sprite {
    if !FLIP_SPRITE_ON_DIRECTION {
        sprite
    } else {
        match direction.x {
            Sign::Minus => Sprite { flip_x: false, ..sprite },
            Sign::Plus => Sprite { flip_x: true, ..sprite },
            Sign::Zero => sprite,
        }
    }
}

/// The player after a frame in which the keys ask for `direction`.
pub open spec fn steered(player: Player, direction: Direction) -> Player {
    if direction.is_zero() {
        Player { is_moving: false, ..player }
    } else {
        Player { is_moving: true, last_direction: direction }
    }
}

/// A way so long that it carries a coordinate from anywhere to a bound of
/// the window or beyond: 2^63 billionths of a pixel and a thousand pixels.
const FAR: u128 = 9_223_373_036_854_775_808;

/// A way of at least 2^64 billionths of a pixel, shared between both axes,
/// is [`FAR`] or more along each.
proof fn lemma_far_step(way: nat)
    requires
        way >= 0x1_0000_0000_0000_0000,
    ensures
        floor_sqrt(way * way / 2) >= FAR,
{
    lemma_square_monotonic(0x1_0000_0000_0000_0000, way);
    assert(2 * (FAR * FAR) <= 0x1_0000_0000_0000_0000nat * 0x1_0000_0000_0000_0000nat)
        by (nonlinear_arith)
        requires
            FAR == 9_223_373_036_854_775_808,
    ;
    lemma_floor_sqrt_lower(way * way / 2, FAR as nat);
}

/// The way made along each axis, or [`FAR`] where it is longer than that and
/// longer than can be counted.
fn axis_step(direction: Direction, delta_nanos: u64) -> (step: u128)
    ensures
        step == axis_travel(direction, delta_nanos) || FAR <= step <= axis_travel(
            direction,
            delta_nanos,
        ),
        step < 0x1_0000_0000_0000_0000_0000,
{
    let way: u128 = MOVE_SPEED as u128 * delta_nanos as u128;
    if matches!(direction.x, Sign::Zero) || matches!(direction.y, Sign::Zero) {
        way
    } else if way < 0x1_0000_0000_0000_0000 {
        assert(way * way <= 0xFFFF_FFFF_FFFF_FFFFu128 * 0xFFFF_FFFF_FFFF_FFFFu128)
            by (nonlinear_arith)
            requires
                way <= 0xFFFF_FFFF_FFFF_FFFFu128,
        ;
        isqrt(way * way / 2) as u128
    } else {
        proof {
            lemma_far_step(way as nat);
        }
        FAR
    }
}

/// A coordinate after a move of `step` along its axis, or of a longer one
/// where `step` is [`FAR`] or more.
fn move_axis(old: i64, sign: Sign, step: u128, bound: i64) -> (new: i64)
    requires
        0 <= bound <= 1_000_000_000_000,
        step < 0x1_0000_0000_0000_0000_0000,
    ensures
        new == moved(old, sign, step as nat, bound),
        forall|longer: nat| FAR <= step <= longer ==> new == moved(old, sign, longer, bound),
{
    match sign {
        Sign::Zero => clamp(old as i128, -bound, bound),
        Sign::Plus => clamp(old as i128 + step as i128, -bound, bound),
        Sign::Minus => clamp(old as i128 - step as i128, -bound, bound),
    }
}

/// Moves the player for a frame of `delta_nanos` nanoseconds in which the
/// keys ask for `direction`.
///
/// Without a direction the player stands still and nothing else changes.
/// With one, the player moves at the walking speed along it, stays within
/// the bounds of the window, remembers the direction, and looks the way it
/// walks.
pub fn walk(
    direction: Direction,
    delta_nanos: u64,
    transform: &mut Transform,
    sprite: &mut Sprite,
    player: &mut Player,
)
    ensures
        *final(transform) == walked(*old(transform), direction, delta_nanos),
        *final(sprite) == if direction.is_zero() {
            *old(sprite)
        } else {
            faced(*old(sprite), direction)
        },
        *final(player) == steered(*old(player), direction),
{
    player.is_moving = !(matches!(direction.x, Sign::Zero) && matches!(direction.y, Sign::Zero));
    if player.is_moving {
        let step: u128 = axis_step(direction, delta_nanos);
        transform.translation.x = move_axis(transform.translation.x, direction.x, step, X_BOUND);
        transform.translation.y = move_axis(transform.translation.y, direction.y, step, Y_BOUND);
        player.last_direction = direction;
        if FLIP_SPRITE_ON_DIRECTION {
            match direction.x {
                Sign::Minus => {
                    sprite.flip_x = false;
                },
                Sign::Plus => {
                    sprite.flip_x = true;
                },
                Sign::Zero => {},
            }
        }
    }
}

/// Moves the player for a frame of `delta_nanos` nanoseconds, along the
/// direction that the keys held on the keyboard ask for.
pub fn move_player(
    keyboard_input: &ButtonInput<KeyCode>,
    delta_nanos: u64,
    transform: &mut Transform,
    sprite: &mut Sprite,
    player: &mut Player,
)
    ensures
        *final(transform) == walked(
            *old(transform),
            input_direction(pressed_keys(*keyboard_input)),
            delta_nanos,
        ),
        *final(sprite) == if input_direction(pressed_keys(*keyboard_input)).is_zero() {
            *old(sprite)
        } else {
            faced(*old(sprite), input_direction(pressed_keys(*keyboard_input)))
        },
        *final(player) == steered(*old(player), input_direction(pressed_keys(*keyboard_input))),
{
    let direction = read_direction(keyboard_input);
    walk(direction, delta_nanos, transform, sprite, player);
}

/// Keys held against each other cancel out: where up and down are both held
/// or both free, and left and right likewise, the player does not move and
/// stays where it is.
pub proof fn lemma_opposite_keys_cancel(
    up: bool,
    down: bool,
    left: bool,
    right: bool,
    delta_nanos: u64,
    transform: Transform,
    sprite: Sprite,
    player: Player,
)
    requires
        up == down,
        left == right,
    ensures
        direction_of(up, down, left, right).is_zero(),
        !steered(player, direction_of(up, down, left, right)).is_moving,
        walked(transform, direction_of(up, down, left, right), delta_nanos) == transform,
{
}

/// The same of the keyboard: where a key for up is held if and only if one
/// for down is, and one for left if and only if one for right is, the player
/// does not move and stays where it is.
pub proof fn lemma_opposite_held_keys_cancel(
    keys: Set<Key>,
    delta_nanos: u64,
    transform: Transform,
    player: Player,
)
    requires
        (keys.contains(Key::KeyW) || keys.contains(Key::ArrowUp)) == (keys.contains(Key::KeyS)
            || keys.contains(Key::ArrowDown)),
        (keys.contains(Key::KeyA) || keys.contains(Key::ArrowLeft)) == (keys.contains(Key::KeyD)
            || keys.contains(Key::ArrowRight)),
    ensures
        input_direction(keys).is_zero(),
        !steered(player, input_direction(keys)).is_moving,
        walked(transform, input_direction(keys), delta_nanos) == transform,
{
}

/// The player moves exactly when the keys ask for a direction.
pub proof fn lemma_moves_with_direction(player: Player, direction: Direction)
    ensures
        steered(player, direction).is_moving == !direction.is_zero(),
{
}

/// A move along one axis alone carries the player the whole way of the
/// frame, the walking speed times the time passed, along that axis, and
/// then holds both coordinates within the bounds.
pub proof fn lemma_straight_step(transform: Transform, direction: Direction, delta_nanos: u64)
    requires
        !direction.is_zero(),
        !direction.is_diagonal(),
    ensures
        walked(transform, direction, delta_nanos).translation.x == clamp_spec(
            transform.translation.x + direction.x.value() * (MOVE_SPEED * delta_nanos),
            -X_BOUND as int,
            X_BOUND as int,
        ),
        walked(transform, direction, delta_nanos).translation.y == clamp_spec(
            transform.translation.y + direction.y.value() * (MOVE_SPEED * delta_nanos),
            -Y_BOUND as int,
            Y_BOUND as int,
        ),
        walked(transform, direction, delta_nanos).scale == transform.scale,
{
}

/// After a frame in which the player moved, it stands within the bounds:
/// no further from the centre of the window than half the window less half
/// the sprite, on either axis.
pub proof fn lemma_walk_stays_in_bounds(
    transform: Transform,
    direction: Direction,
    delta_nanos: u64,
)
    requires
        !direction.is_zero(),
    ensures
        -X_BOUND <= walked(transform, direction, delta_nanos).translation.x <= X_BOUND,
        -Y_BOUND <= walked(transform, direction, delta_nanos).translation.y <= Y_BOUND,
{
}

/// Twice the square of the way made along each axis of a diagonal move is
/// the square of the whole way, or less by under the next step of a
/// billionth: the way made in the plane is that of a straight move.
pub proof fn lemma_diagonal_step(direction: Direction, delta_nanos: u64)
    requires
        direction.is_diagonal(),
    ensures
        ({
            let share = axis_travel(direction, delta_nanos);
            let way = travel(delta_nanos);
            2 * (share * share) <= way * way < 2 * ((share + 1) * (share + 1))
        }),
{
    let way = travel(delta_nanos);
    lemma_floor_sqrt_exists(way * way / 2);
}

/// Whether the animation runs in a frame: always, or only while the player
/// moves, as [`ANIMATE_ONLY_WHEN_MOVING`] says.
pub open spec fn animates(player: Player) -> bool {
    !ANIMATE_ONLY_WHEN_MOVING || player.is_moving
}

/// Whether the animation runs in a frame.
pub fn is_animating(player: &Player) -> (runs: bool)
    ensures
        runs == animates(*player),
{
    !ANIMATE_ONLY_WHEN_MOVING || player.is_moving
}

/// The frame after `index`: the next one, or the first one after the last.
pub open spec fn next_index(indices: AnimationIndices, index: usize) -> int {
    if index == indices.last {
        indices.first as int
    } else {
        index + 1
    }
}

/// Whether the frame after the one shown can be counted: the sprite shows
/// the last frame, or one below the largest number.
pub open spec fn can_advance(sprite: Sprite, indices: AnimationIndices) -> bool {
    sprite.atlas_index matches Some(index) ==> index == indices.last || index < usize::MAX
}

/// Whether the frame after the one shown can be counted.
pub fn is_advanceable(sprite: &Sprite, indices: &AnimationIndices) -> (able: bool)
    ensures
        able == can_advance(*sprite, *indices),
{
    match sprite.atlas_index {
        Some(index) => index == indices.last || index < usize::MAX,
        None => true,
    }
}

/// The sprite after a frame in which the timer did or did not run out. When
/// it did, a sprite that shows a frame of a sheet shows the next one.
pub open spec fn advanced(sprite: Sprite, indices: AnimationIndices, finished: bool) -> Sprite {
    match sprite.atlas_index {
        Some(index) if finished => Sprite {
            atlas_index: Some(next_index(indices, index) as usize),
            ..sprite
        },
        _ => sprite,
    }
}

/// Shows the next frame of the animation if `finished` says that the timer
/// ran out.
pub fn advance_frame(indices: &AnimationIndices, sprite: &mut Sprite, finished: bool)
    requires
        finished ==> can_advance(*old(sprite), *indices),
    ensures
        *final(sprite) == advanced(*old(sprite), *indices, finished),
{
    if finished {
        match sprite.atlas_index {
            Some(index) => {
                let next: usize = if index == indices.last {
                    indices.first
                } else {
                    index + 1
                };
                sprite.atlas_index = Some(next);
            },
            None => {},
        }
    }
}

/// The timer after a tick of `delta_nanos`, seen from the timer before it.
/// The interval, the mode and the pause are kept. A timer that keeps time
/// goes on keeping time, has counted what is left over of the time passed
/// when the whole intervals are taken out, and has run out if there was a
/// whole interval to take out.
pub open spec fn timer_ticked(before: Timer, after: Timer, delta_nanos: u64) -> bool {
    &&& after == ticked(before, delta_nanos)
    &&& interval_nanos(after) == interval_nanos(before)
    &&& is_repeating(after) == is_repeating(before)
    &&& is_paused(after) == is_paused(before)
    &&& keeps_time(before) ==> {
        &&& keeps_time(after)
        &&& elapsed_nanos(after) == elapsed_after(before, delta_nanos)
        &&& ran_out(after) == runs_out(before, delta_nanos)
    }
}

/// Moves the walking animation on by a frame that lasted `delta_nanos`.
///
/// Where the animation does not run, nothing changes. Where it runs, the
/// timer ticks, and when it ran out the sprite shows the next frame.
pub fn animate_sprite(
    delta_nanos: u64,
    indices: &AnimationIndices,
    timer: &mut AnimationTimer,
    sprite: &mut Sprite,
    player: &Player,
)
    requires
        animates(*player) ==> can_advance(*old(sprite), *indices),
    ensures
        !animates(*player) ==> *final(timer) == *old(timer) && *final(sprite) == *old(sprite),
        animates(*player) ==> {
            &&& timer_ticked(old(timer).0, final(timer).0, delta_nanos)
            &&& *final(sprite) == advanced(*old(sprite), *indices, ran_out(final(timer).0))
        },
{
    if !is_animating(player) {
        return ;
    }
    let ghost before = timer.0;
    tick(&mut timer.0, delta_nanos);
    proof {
        lemma_keeps_time(before, timer.0, delta_nanos);
    }
    let done: bool = just_finished(&timer.0);
    advance_frame(indices, sprite, done);
}

/// Moves the walking animation on by a frame that lasted `delta_nanos`,
/// whatever frame the sprite shows, and says whether it could.
///
/// It does what [`animate_sprite`] does, but for one case: where the timer
/// ran out and the frame after the one shown cannot be counted, the sprite
/// stays as it is and the answer is `false`.
pub fn try_animate_sprite(
    delta_nanos: u64,
    indices: &AnimationIndices,
    timer: &mut AnimationTimer,
    sprite: &mut Sprite,
    player: &Player,
) -> (counted: bool)
    ensures
        !animates(*player) ==> {
            &&& counted
            &&& *final(timer) == *old(timer)
            &&& *final(sprite) == *old(sprite)
        },
        animates(*player) ==> {
            &&& timer_ticked(old(timer).0, final(timer).0, delta_nanos)
            &&& counted == (ran_out(final(timer).0) ==> can_advance(*old(sprite), *indices))
            &&& counted ==> *final(sprite) == advanced(
                *old(sprite),
                *indices,
                ran_out(final(timer).0),
            )
            &&& !counted ==> *final(sprite) == *old(sprite)
        },
{
    if !is_animating(player) {
        return true;
    }
    let ghost before = timer.0;
    tick(&mut timer.0, delta_nanos);
    proof {
        lemma_keeps_time(before, timer.0, delta_nanos);
    }
    let done: bool = just_finished(&timer.0);
    if done && !is_advanceable(sprite, indices) {
        return false;
    }
    advance_frame(indices, sprite, done);
    true
}

/// What is left over of a time when whole intervals are taken out is less
/// than an interval: a timer that keeps time goes on keeping time.
proof fn lemma_keeps_time(before: Timer, after: Timer, delta_nanos: u64)
    requires
        interval_nanos(after) == interval_nanos(before),
        is_repeating(after) == is_repeating(before),
        is_paused(after) == is_paused(before),
        keeps_time(before) ==> elapsed_nanos(after) == elapsed_after(before, delta_nanos),
    ensures
        keeps_time(before) ==> keeps_time(after),
{
    if keeps_time(before) {
        lemma_mod_pos_bound(
            elapsed_nanos(before) + delta_nanos,
            interval_nanos(before) as int,
        );
    }
}

} // verus!
