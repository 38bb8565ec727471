//! The card scene: a card that turns over when it is clicked.

use vstd::prelude::*;
use vstd::arithmetic::div_mod::lemma_div_is_ordered;
use bevy::input::ButtonInput;
use bevy::input::mouse::MouseButton;
use crate::common::{back_hint, spawn_back_hint};
use crate::components::{Card, CardFlipSceneEntity};
use crate::engine::{Color, Image, Sprite, Text, Transform, Vec2};
use crate::input::{left_button_just_pressed, left_just_pressed};
use crate::state::AppState;
use crate::units::ONE;
use crate::world::{Bundle, CardImages, Entity, World};

verus! {

/// The factor by which the card is drawn larger than its image.
pub const CARD_SCALE: i64 = ONE;

/// How long a flip takes, in nanoseconds: 0.15 seconds.
pub const FLIP_DURATION: u64 = 150_000_000;

/// The side of the square that a sprite without a size of its own is taken
/// to fill: 64 pixels.
pub const DEFAULT_SIZE: i64 = 64 * ONE;

/// The card as the scene starts: face down and at rest.
pub open spec fn new_card() -> Card {
    Card { is_front: false, is_flipping: false, flip_progress: 0, image_swapped: false }
}

/// The faces of the card.
pub open spec fn card_faces() -> CardImages {
    CardImages { front: Image::CardFront, back: Image::CardBack }
}

/// The card in the middle of the window, showing its back.
pub open spec fn card_entity() -> Entity {
    Entity {
        marker: Some(AppState::CardFlipScene),
        bundle: Bundle::Card {
            sprite: Sprite::plain(Image::CardBack),
            transform: Transform::from_scale(CARD_SCALE),
            card: new_card(),
        },
    }
}

/// The line that says what to do with the card.
pub open spec fn card_caption() -> Entity {
    Entity {
        marker: Some(AppState::CardFlipScene),
        bundle: Bundle::Caption(
            Text { content: "Click the card to flip", font_size: 24, color: Color::white() },
        ),
    }
}

/// The entities of the card scene.
pub open spec fn card_flip_entities() -> Seq<Entity> {
    seq![card_entity(), card_caption(), back_hint(AppState::CardFlipScene)]
}

/// Builds the card scene: loads both faces of the card and adds the scene's
/// entities to the world, after those that are there.
pub fn setup_card_flip_scene(world: &mut World)
    ensures
        final(world).entities@ == old(world).entities@ + card_flip_entities(),
        final(world).card_images == Some(card_faces()),
        final(world).state == old(world).state,
        final(world).next_state == old(world).next_state,
{
    let card_images = CardImages { front: Image::CardFront, back: Image::CardBack };
    world.spawn(
        Entity {
            marker: Some(AppState::CardFlipScene),
            bundle: Bundle::Card {
                sprite: Sprite {
                    image: card_images.back,
                    flip_x: false,
                    atlas_index: None,
                    custom_size: None,
                },
                transform: Transform {
                    translation: Vec2 { x: 0, y: 0 },
                    scale: Vec2 { x: CARD_SCALE, y: CARD_SCALE },
                },
                card: Card {
                    is_front: false,
                    is_flipping: false,
                    flip_progress: 0,
                    image_swapped: false,
                },
            },
        },
    );
    world.card_images = Some(card_images);
    world.spawn(
        Entity {
            marker: Some(AppState::CardFlipScene),
            bundle: Bundle::Caption(
                Text {
                    content: "Click the card to flip",
                    font_size: 24,
                    color: Color::srgb(ONE, ONE, ONE),
                },
            ),
        },
    );
    spawn_back_hint(world, CardFlipSceneEntity);
}

/// Lets go of the faces of the card.
pub fn cleanup_card_images(world: &mut World)
    ensures
        final(world).card_images is None,
        final(world).entities@ == old(world).entities@,
        final(world).state == old(world).state,
        final(world).next_state == old(world).next_state,
{
    world.card_images = None;
}

/// The size at which a sprite is drawn before its transform stretches it.
pub open spec fn base_size(sprite: Sprite) -> Vec2 {
    match sprite.custom_size {
        Some(size) => size,
        None => Vec2::splat(DEFAULT_SIZE),
    }
}

/// Whether a point that lies `offset` from the centre of a stretch, along
/// one axis, is within it. The stretch is `size` long before it is scaled by
/// `scale`; its ends count as within.
///
/// In whole units this says `-size * scale / 2 <= offset <= size * scale / 2`.
pub open spec fn within(offset: int, size: int, scale: int) -> bool {
    -(size * scale) <= 2 * ONE * offset <= size * scale
}

/// Whether `point` lies within the bounds of the sprite: the rectangle
/// around the transform's translation whose sides are the sprite's size
/// times the transform's scale.
pub open spec fn hit(sprite: Sprite, transform: Transform, point: Vec2) -> bool {
    &&& within(
        point.x - transform.translation.x,
        base_size(sprite).x as int,
        transform.scale.x as int,
    )
    &&& within(
        point.y - transform.translation.y,
        base_size(sprite).y as int,
        transform.scale.y as int,
    )
}

fn is_within(offset: i128, size: i64, scale: i64) -> (inside: bool)
    requires
        -0x1_0000_0000_0000_0000 < offset < 0x1_0000_0000_0000_0000,
    ensures
        inside == within(offset as int, size as int, scale as int),
{
    assert(-0x4000_0000_0000_0000_0000_0000_0000_0000 <= size * scale
        <= 0x4000_0000_0000_0000_0000_0000_0000_0000) by (nonlinear_arith)
        requires
            -0x8000_0000_0000_0000 <= size <= 0x7fff_ffff_ffff_ffff,
            -0x8000_0000_0000_0000 <= scale <= 0x7fff_ffff_ffff_ffff,
    ;
    assert(-0x1_0000_0000_0000_0000_0000_0000 < 2_000_000_000 * offset
        < 0x1_0000_0000_0000_0000_0000_0000) by (nonlinear_arith)
        requires
            -0x1_0000_0000_0000_0000 < offset < 0x1_0000_0000_0000_0000,
    ;
    let extent: i128 = size as i128 * scale as i128;
    let twice: i128 = 2_000_000_000 * offset;
    -extent <= twice && twice <= extent
}

/// Whether `point` lies within the bounds of the sprite.
pub fn is_hit(sprite: &Sprite, transform: &Transform, point: Vec2) -> (inside: bool)
    ensures
        inside == hit(*sprite, *transform, point),
{
    let size: Vec2 = match sprite.custom_size {
        Some(size) => size,
        None => Vec2 { x: DEFAULT_SIZE, y: DEFAULT_SIZE },
    };
    let dx: i128 = point.x as i128 - transform.translation.x as i128;
    let dy: i128 = point.y as i128 - transform.translation.y as i128;
    is_within(dx, size.x, transform.scale.x) && is_within(dy, size.y, transform.scale.y)
}

/// The card after a click that did or did not hit it. A card at rest that is
/// hit starts to flip; one that is flipping, or that is missed, stays as it
/// is.
pub open spec fn clicked(card: Card, hit: bool) -> Card {
    if !card.is_flipping && hit {
        Card { is_flipping: true, flip_progress: 0, image_swapped: false, ..card }
    } else {
        card
    }
}

/// Handles a click at `world_position`: the card starts to flip if it is at
/// rest and the click falls within its bounds.
pub fn click_card(world_position: Vec2, sprite: &Sprite, card: &mut Card, transform: &Transform)
    ensures
        *final(card) == clicked(*old(card), hit(*sprite, *transform, world_position)),
{
    if card.is_flipping {
        return ;
    }
    if is_hit(sprite, transform, world_position) {
        card.is_flipping = true;
        card.flip_progress = 0;
        card.image_swapped = false;
    }
}

/// Handles the mouse for one card. `world_position` is where the pointer is
/// in the scene, or `None` where that cannot be told (no window, no pointer
/// in it, no camera). Without a fresh press of the left button, or without a
/// position, nothing happens.
pub fn card_click_system(
    mouse_button: &ButtonInput<MouseButton>,
    world_position: Option<Vec2>,
    sprite: &Sprite,
    card: &mut Card,
    transform: &Transform,
)
    ensures
        left_just_pressed(*mouse_button) && world_position is Some ==> *final(card) == clicked(
            *old(card),
            hit(*sprite, *transform, world_position->0),
        ),
        !left_just_pressed(*mouse_button) || world_position is None ==> *final(card) == *old(
            card,
        ),
{
    if !left_button_just_pressed(mouse_button) {
        return ;
    }
    match world_position {
        Some(point) => {
            click_card(point, sprite, card, transform);
        },
        None => {},
    }
}

/// Whether the frame that lasts `delta_nanos` ends the flip.
pub open spec fn completes(card: Card, delta_nanos: u64) -> bool {
    card.is_flipping && card.flip_progress + delta_nanos >= FLIP_DURATION
}

/// Whether the frame that lasts `delta_nanos` swaps the face of the card:
/// the flip is at least half done after it, and the face has not been
/// swapped in this flip. The frame that ends the flip swaps the face too,
/// if no frame before it did.
pub open spec fn swaps(card: Card, delta_nanos: u64) -> bool {
    &&& card.is_flipping
    &&& !card.image_swapped
    &&& 2 * (card.flip_progress + delta_nanos) >= FLIP_DURATION
}

/// The card after a frame that lasts `delta_nanos`.
pub open spec fn flipped(card: Card, delta_nanos: u64) -> Card {
    if !card.is_flipping {
        card
    } else if completes(card, delta_nanos) {
        Card {
            is_front: if card.image_swapped {
                card.is_front
            } else {
                !card.is_front
            },
            is_flipping: false,
            flip_progress: 0,
            image_swapped: false,
        }
    } else if swaps(card, delta_nanos) {
        Card {
            is_front: !card.is_front,
            image_swapped: true,
            flip_progress: (card.flip_progress + delta_nanos) as u64,
            ..card
        }
    } else {
        Card { flip_progress: (card.flip_progress + delta_nanos) as u64, ..card }
    }
}

/// The image for a face of the card.
pub open spec fn face(card_images: CardImages, is_front: bool) -> Image {
    if is_front {
        card_images.front
    } else {
        card_images.back
    }
}

/// The width of the card, as a share of its full width, when `progress`
/// nanoseconds of a flip have passed: from [`ONE`] down to 0 over the first
/// half of the flip, and back up to [`ONE`] over the second, rounded down to
/// a billionth.
pub open spec fn flip_scale(progress: u64) -> int {
    if 2 * progress < FLIP_DURATION {
        (FLIP_DURATION - 2 * progress) * ONE / (FLIP_DURATION as int)
    } else {
        (2 * progress - FLIP_DURATION) * ONE / (FLIP_DURATION as int)
    }
}

/// The width of the card over a flip is a wedge: full as the flip begins,
/// nothing at its middle, never wider than full, falling all through the
/// first half and rising all through the second.
pub proof fn lemma_flip_scale(early: u64, late: u64)
    requires
        early <= late < FLIP_DURATION,
    ensures
        flip_scale(0) == ONE,
        flip_scale(FLIP_DURATION / 2) == 0,
        0 <= flip_scale(early) <= ONE,
        2 * late <= FLIP_DURATION ==> flip_scale(early) >= flip_scale(late),
        FLIP_DURATION <= 2 * early ==> flip_scale(early) <= flip_scale(late),
{
    let full = FLIP_DURATION as int;
    let one = ONE as int;
    let span = |progress: u64|
        if 2 * progress < full {
            full - 2 * progress
        } else {
            2 * progress - full
        };
    assert(0 <= span(early) * one <= full * one) by (nonlinear_arith)
        requires
            0 <= span(early) <= full,
            one == 1_000_000_000,
    ;
    lemma_div_is_ordered(0, span(early) * one, full);
    lemma_div_is_ordered(span(early) * one, full * one, full);
    if 2 * late <= full {
        assert(span(late) * one <= span(early) * one) by (nonlinear_arith)
            requires
                span(late) <= span(early),
                one == 1_000_000_000,
        ;
        lemma_div_is_ordered(span(late) * one, span(early) * one, full);
    }
    if full <= 2 * early {
        assert(span(early) * one <= span(late) * one) by (nonlinear_arith)
            requires
                span(early) <= span(late),
                one == 1_000_000_000,
        ;
        lemma_div_is_ordered(span(early) * one, span(late) * one, full);
    }
}

/// The width of the card when `progress` nanoseconds of a flip have passed.
pub fn flip_scale_at(progress: u64) -> (scale: i64)
    requires
        progress < FLIP_DURATION,
    ensures
        scale == flip_scale(progress),
        0 <= scale <= ONE,
{
    let span: u64 = if 2 * progress < FLIP_DURATION {
        FLIP_DURATION - 2 * progress
    } else {
        2 * progress - FLIP_DURATION
    };
    assert(span * 1_000_000_000 <= 150_000_000 * 1_000_000_000) by (nonlinear_arith)
        requires
            span <= 150_000_000,
    ;
    let scale: u64 = span * 1_000_000_000 / FLIP_DURATION;
    scale as i64
}

/// Moves the flip of one card on by a frame that lasted `delta_nanos`.
///
/// A card at rest stays as it is. Otherwise the flip progresses by the time
/// passed. When it has reached half its duration and the face was not yet
/// swapped in this flip, the card shows its other face. When it has reached
/// its duration, the flip is over and the card is at rest again. So every
/// flip swaps the face once, however long its frames are. The card is drawn
/// as wide as the progress of the flip says.
pub fn card_flip_animation_system(
    delta_nanos: u64,
    card_images: &CardImages,
    sprite: &mut Sprite,
    card: &mut Card,
    transform: &mut Transform,
)
    ensures
        *final(card) == flipped(*old(card), delta_nanos),
        *final(sprite) == if swaps(*old(card), delta_nanos) {
            Sprite { image: face(*card_images, !old(card).is_front), ..*old(sprite) }
        } else {
            *old(sprite)
        },
        !old(card).is_flipping ==> *final(transform) == *old(transform),
        old(card).is_flipping ==> {
            &&& final(transform).translation == old(transform).translation
            &&& final(transform).scale.y == old(transform).scale.y
            &&& final(transform).scale.x == flip_scale(final(card).flip_progress) * CARD_SCALE
                / (ONE as int)
        },
{
    if !card.is_flipping {
        return ;
    }
    let progress: u128 = card.flip_progress as u128 + delta_nanos as u128;
    if 2 * progress >= FLIP_DURATION as u128 && !card.image_swapped {
        card.is_front = !card.is_front;
        card.image_swapped = true;
        sprite.image = if card.is_front {
            card_images.front
        } else {
            card_images.back
        };
    }
    if progress >= FLIP_DURATION as u128 {
        card.is_flipping = false;
        card.flip_progress = 0;
        card.image_swapped = false;
    } else {
        card.flip_progress = progress as u64;
    }
    let scale_x: i64 = flip_scale_at(card.flip_progress);
    assert(scale_x * CARD_SCALE / (ONE as int) == scale_x) by (nonlinear_arith)
        requires
            CARD_SCALE == ONE,
            ONE == 1_000_000_000,
    ;
    transform.scale.x = scale_x * CARD_SCALE / ONE;
}

/// A click within the bounds of a card at rest starts a flip from its
/// beginning and leaves the face as it is. A click outside them changes
/// nothing. Neither does any click on a card that is flipping.
pub proof fn lemma_click(card: Card, sprite: Sprite, transform: Transform, point: Vec2)
    ensures
        !card.is_flipping && hit(sprite, transform, point) ==> clicked(
            card,
            hit(sprite, transform, point),
        ) == (Card { is_flipping: true, flip_progress: 0, image_swapped: false, ..card }),
        !hit(sprite, transform, point) ==> clicked(card, hit(sprite, transform, point)) == card,
        card.is_flipping ==> clicked(card, hit(sprite, transform, point)) == card,
{
}

/// A card whose flags and progress agree: at rest it has no progress and no
/// swap to remember, and while it flips its progress is below the flip's
/// duration and its face was swapped exactly if the flip is half done.
pub open spec fn consistent(card: Card) -> bool {
    if card.is_flipping {
        &&& card.flip_progress < FLIP_DURATION
        &&& card.image_swapped <==> 2 * card.flip_progress >= FLIP_DURATION
    } else {
        card.flip_progress == 0 && !card.image_swapped
    }
}

/// The card starts consistent, and clicks and frames keep it so.
pub proof fn lemma_consistent(card: Card, hit: bool, delta_nanos: u64)
    ensures
        consistent(new_card()),
        consistent(card) ==> consistent(clicked(card, hit)),
        consistent(card) ==> consistent(flipped(card, delta_nanos)),
{
}

/// While a flip runs its progress never falls: a frame adds the time passed
/// to it. The frame that ends the flip sets the progress to exactly zero and
/// leaves the card at rest. A frame swaps the face exactly when it says so:
/// where the card is consistent, that is the frame that carries the
/// progress from below half the flip's duration to half of it or beyond.
/// A card at rest is left alone.
pub proof fn lemma_frame(card: Card, delta_nanos: u64)
    ensures
        card.is_flipping && !completes(card, delta_nanos) ==> {
            &&& flipped(card, delta_nanos).is_flipping
            &&& flipped(card, delta_nanos).flip_progress == card.flip_progress + delta_nanos
            &&& flipped(card, delta_nanos).flip_progress >= card.flip_progress
        },
        completes(card, delta_nanos) ==> {
            &&& !flipped(card, delta_nanos).is_flipping
            &&& flipped(card, delta_nanos).flip_progress == 0
            &&& !flipped(card, delta_nanos).image_swapped
        },
        flipped(card, delta_nanos).is_front != card.is_front <==> swaps(card, delta_nanos),
        !card.is_flipping ==> flipped(card, delta_nanos) == card,
        consistent(card) ==> (swaps(card, delta_nanos) <==> {
            &&& card.is_flipping
            &&& 2 * card.flip_progress < FLIP_DURATION
            &&& FLIP_DURATION <= 2 * (card.flip_progress + delta_nanos)
        }),
{
}

/// The time that the frames `deltas` last together.
pub open spec fn total(deltas: Seq<u64>) -> nat
    decreases deltas.len(),
{
    if deltas.len() == 0 {
        0
    } else {
        total(deltas.drop_last()) + deltas.last() as nat
    }
}

/// The card after the frames `deltas`, oldest first, with no click between
/// them.
pub open spec fn after_frames(card: Card, deltas: Seq<u64>) -> Card
    decreases deltas.len(),
{
    if deltas.len() == 0 {
        card
    } else {
        flipped(after_frames(card, deltas.drop_last()), deltas.last())
    }
}

/// How many of the frames `deltas` swap the face of the card.
pub open spec fn swap_count(card: Card, deltas: Seq<u64>) -> nat
    decreases deltas.len(),
{
    if deltas.len() == 0 {
        0
    } else {
        let before = after_frames(card, deltas.drop_last());
        swap_count(card, deltas.drop_last()) + if swaps(before, deltas.last()) {
            1nat
        } else {
            0nat
        }
    }
}

/// Without a click in between, the face is swapped at most once, however
/// many frames pass, however long they last and whatever card they begin
/// with. While the card is flipping with its face not yet swapped, no frame
/// has swapped it.
pub proof fn lemma_at_most_one_swap(card: Card, deltas: Seq<u64>)
    ensures
        swap_count(card, deltas) <= 1,
        after_frames(card, deltas).is_flipping && !after_frames(card, deltas).image_swapped
            ==> swap_count(card, deltas) == 0,
    decreases deltas.len(),
{
    if deltas.len() > 0 {
        lemma_at_most_one_swap(card, deltas.drop_last());
    }
}

/// Whether a flip has just begun.
pub open spec fn started(card: Card) -> bool {
    card.is_flipping && card.flip_progress == 0 && !card.image_swapped
}

/// While a flip that has just begun is running, its progress is the time
/// passed since, and the face has been swapped, once, exactly if the flip is
/// half done: the swap comes in the first frame that carries the progress
/// to half the flip's duration or beyond.
pub proof fn lemma_running_flip(card: Card, deltas: Seq<u64>)
    requires
        started(card),
        total(deltas) < FLIP_DURATION,
    ensures
        after_frames(card, deltas) == (Card {
            is_front: if 2 * total(deltas) >= FLIP_DURATION {
                !card.is_front
            } else {
                card.is_front
            },
            is_flipping: true,
            flip_progress: total(deltas) as u64,
            image_swapped: 2 * total(deltas) >= FLIP_DURATION,
        }),
        swap_count(card, deltas) == if 2 * total(deltas) >= FLIP_DURATION {
            1nat
        } else {
            0nat
        },
    decreases deltas.len(),
{
    if deltas.len() > 0 {
        lemma_running_flip(card, deltas.drop_last());
    }
}

/// The frame that carries the progress of a flip to its duration ends it:
/// the card is at rest, its progress is zero, it shows its other face, and
/// the face was swapped once, however the time was shared between the
/// frames.
pub proof fn lemma_finished_flip(card: Card, deltas: Seq<u64>)
    requires
        started(card),
        deltas.len() > 0,
        total(deltas.drop_last()) < FLIP_DURATION <= total(deltas),
    ensures
        after_frames(card, deltas) == (Card {
            is_front: !card.is_front,
            is_flipping: false,
            flip_progress: 0,
            image_swapped: false,
        }),
        swap_count(card, deltas) == 1,
{
    lemma_running_flip(card, deltas.drop_last());
}

/// Frames that are added never take from the time that frames last
/// together.
pub proof fn lemma_total_grows(deltas: Seq<u64>, count: int)
    requires
        0 <= count <= deltas.len(),
    ensures
        total(deltas.take(count)) <= total(deltas),
    decreases deltas.len(),
{
    if count < deltas.len() {
        lemma_total_grows(deltas.drop_last(), count);
        assert(deltas.drop_last().take(count) =~= deltas.take(count));
    } else {
        assert(deltas.take(count) =~= deltas);
    }
}

/// From the beginning of a flip up to the frame that ends it, the face has
/// been swapped, once, exactly if the time passed is half the flip's
/// duration or more.
pub proof fn lemma_swap_at_half(card: Card, deltas: Seq<u64>)
    requires
        started(card),
        deltas.len() > 0 ==> total(deltas.drop_last()) < FLIP_DURATION,
    ensures
        swap_count(card, deltas) == if 2 * total(deltas) >= FLIP_DURATION {
            1nat
        } else {
            0nat
        },
{
    if deltas.len() > 0 {
        if total(deltas) < FLIP_DURATION {
            lemma_running_flip(card, deltas);
        } else {
            lemma_finished_flip(card, deltas);
        }
    }
}

/// In every flip the face is swapped exactly once, in the first frame
/// after which half the flip's duration or more has passed: up to each
/// frame of the flip, the face has been swapped exactly if that much time
/// has passed. When the flip is over the card shows its other face.
pub proof fn lemma_one_swap_per_flip(card: Card, deltas: Seq<u64>)
    requires
        started(card),
        deltas.len() > 0,
        total(deltas.drop_last()) < FLIP_DURATION <= total(deltas),
    ensures
        swap_count(card, deltas) == 1,
        after_frames(card, deltas).is_front == !card.is_front,
        !after_frames(card, deltas).is_flipping,
        forall|count: int|
            0 <= count <= deltas.len() ==> swap_count(card, #[trigger] deltas.take(count)) == if 2
                * total(deltas.take(count)) >= FLIP_DURATION {
                1nat
            } else {
                0nat
            },
{
    lemma_finished_flip(card, deltas);
    assert forall|count: int| 0 <= count <= deltas.len() implies swap_count(
        card,
        #[trigger] deltas.take(count),
    ) == if 2 * total(deltas.take(count)) >= FLIP_DURATION {
        1nat
    } else {
        0nat
    } by {
        if count > 0 {
            lemma_total_grows(deltas.drop_last(), count - 1);
            assert(deltas.take(count).drop_last() =~= deltas.drop_last().take(count - 1));
        }
        lemma_swap_at_half(card, deltas.take(count));
    }
}

/// Two flips in a row show the face that the card began with.
pub proof fn lemma_two_flips(card: Card, first: Seq<u64>, second: Seq<u64>)
    requires
        started(card),
        first.len() > 0,
        total(first.drop_last()) < FLIP_DURATION <= total(first),
        second.len() > 0,
        total(second.drop_last()) < FLIP_DURATION <= total(second),
    ensures
        after_frames(clicked(after_frames(card, first), true), second) == (Card {
            is_flipping: false,
            ..card
        }),
{
    lemma_finished_flip(card, first);
    lemma_finished_flip(clicked(after_frames(card, first), true), second);
}

} // verus!
