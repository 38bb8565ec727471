use bevy::input::mouse::MouseButton;
use bevy::input::ButtonInput;
use bevy_playground::components::Card;
use bevy_playground::engine::{Color, Image, Sprite, Text, Transform, Vec2};
use bevy_playground::scenes::card_flip::{
    card_click_system, card_flip_animation_system, cleanup_card_images, click_card,
    flip_scale_at, is_hit, setup_card_flip_scene, CARD_SCALE, DEFAULT_SIZE, FLIP_DURATION,
};
use bevy_playground::state::AppState;
use bevy_playground::units::ONE;
use bevy_playground::world::{Bundle, CardImages, World};

const FACES: CardImages = CardImages { front: Image::CardFront, back: Image::CardBack };
const PIXEL: i64 = ONE;

fn back() -> Sprite {
    Sprite { image: Image::CardBack, flip_x: false, atlas_index: None, custom_size: None }
}

fn front() -> Sprite {
    Sprite { image: Image::CardFront, ..back() }
}

fn origin() -> Transform {
    Transform { translation: Vec2 { x: 0, y: 0 }, scale: Vec2 { x: CARD_SCALE, y: CARD_SCALE } }
}

fn resting() -> Card {
    Card { is_front: false, is_flipping: false, flip_progress: 0, image_swapped: false }
}

fn started() -> Card {
    Card { is_flipping: true, ..resting() }
}

fn mouse(pressed: &[MouseButton]) -> ButtonInput<MouseButton> {
    let mut input = ButtonInput::<MouseButton>::default();
    for button in pressed {
        input.press(*button);
    }
    input
}

fn point(x: i64, y: i64) -> Option<Vec2> {
    Some(Vec2 { x, y })
}

#[test]
fn card_settings() {
    assert_eq!(CARD_SCALE, 1_000_000_000);
    assert_eq!(FLIP_DURATION, 150_000_000);
    assert_eq!(DEFAULT_SIZE, 64_000_000_000);
}

#[test]
fn scene_starts_with_the_back_of_the_card() {
    let mut world = World::empty(AppState::CardFlipScene);
    setup_card_flip_scene(&mut world);
    assert_eq!(world.entities.len(), 3);
    for entity in &world.entities {
        assert_eq!(entity.marker, Some(AppState::CardFlipScene));
    }
    assert_eq!(
        world.entities[0].bundle,
        Bundle::Card { sprite: back(), transform: origin(), card: resting() }
    );
    assert_eq!(
        world.entities[1].bundle,
        Bundle::Caption(Text {
            content: "Click the card to flip",
            font_size: 24,
            color: Color { r: ONE, g: ONE, b: ONE, a: ONE },
        })
    );
    assert!(matches!(world.entities[2].bundle, Bundle::BackHint(_)));
    assert_eq!(world.card_images, Some(FACES));
}

#[test]
fn the_faces_are_files() {
    assert_eq!(Image::CardFront.path(), "card_front_chocolate.png");
    assert_eq!(Image::CardBack.path(), "card_back.png");
    assert_eq!(Image::SquirrelSheet.path(), "DRG_Walking.png");
}

#[test]
fn leaving_lets_go_of_the_faces() {
    let mut world = World::empty(AppState::CardFlipScene);
    setup_card_flip_scene(&mut world);
    cleanup_card_images(&mut world);
    assert_eq!(world.card_images, None);
    assert_eq!(world.entities.len(), 3);
}

#[test]
fn the_card_is_64_pixels_wide_and_high() {
    assert!(is_hit(&back(), &origin(), Vec2 { x: 0, y: 0 }));
    assert!(is_hit(&back(), &origin(), Vec2 { x: 32 * PIXEL, y: 32 * PIXEL }));
    assert!(is_hit(&back(), &origin(), Vec2 { x: -32 * PIXEL, y: -32 * PIXEL }));
    assert!(!is_hit(&back(), &origin(), Vec2 { x: 32 * PIXEL + 1, y: 0 }));
    assert!(!is_hit(&back(), &origin(), Vec2 { x: 0, y: 32 * PIXEL + 1 }));
    assert!(!is_hit(&back(), &origin(), Vec2 { x: -32 * PIXEL - 1, y: 0 }));
    assert!(!is_hit(&back(), &origin(), Vec2 { x: 0, y: -32 * PIXEL - 1 }));
}

#[test]
fn bounds_follow_position_size_and_scale() {
    let sprite = Sprite { custom_size: Some(Vec2 { x: 100 * PIXEL, y: 40 * PIXEL }), ..back() };
    let transform = Transform {
        translation: Vec2 { x: 200 * PIXEL, y: -50 * PIXEL },
        scale: Vec2 { x: 2 * ONE, y: ONE / 2 },
    };
    assert!(is_hit(&sprite, &transform, Vec2 { x: 300 * PIXEL, y: -40 * PIXEL }));
    assert!(is_hit(&sprite, &transform, Vec2 { x: 100 * PIXEL, y: -60 * PIXEL }));
    assert!(!is_hit(&sprite, &transform, Vec2 { x: 300 * PIXEL + 1, y: -50 * PIXEL }));
    assert!(!is_hit(&sprite, &transform, Vec2 { x: 200 * PIXEL, y: -40 * PIXEL + 1 }));
    assert!(!is_hit(&sprite, &transform, Vec2 { x: 0, y: 0 }));
}

#[test]
fn odd_sizes_have_half_billionths_at_their_edges() {
    let sprite = Sprite { custom_size: Some(Vec2 { x: 3, y: 3 }), ..back() };
    assert!(is_hit(&sprite, &origin(), Vec2 { x: 1, y: -1 }));
    assert!(!is_hit(&sprite, &origin(), Vec2 { x: 2, y: 0 }));
    assert!(!is_hit(&sprite, &origin(), Vec2 { x: 0, y: -2 }));
}

#[test]
fn a_card_without_width_is_hit_on_its_line_only() {
    let edge_on = Transform { scale: Vec2 { x: 0, y: ONE }, ..origin() };
    assert!(is_hit(&back(), &edge_on, Vec2 { x: 0, y: 10 * PIXEL }));
    assert!(!is_hit(&back(), &edge_on, Vec2 { x: 1, y: 10 * PIXEL }));
}

#[test]
fn a_mirrored_card_is_never_hit() {
    let mirrored = Transform { scale: Vec2 { x: -ONE, y: ONE }, ..origin() };
    assert!(!is_hit(&back(), &mirrored, Vec2 { x: 0, y: 0 }));
    assert!(!is_hit(&back(), &mirrored, Vec2 { x: 10 * PIXEL, y: 0 }));
}

#[test]
fn the_farthest_points_and_the_largest_cards() {
    let sprite = Sprite { custom_size: Some(Vec2 { x: i64::MAX, y: i64::MAX }), ..back() };
    let transform = Transform {
        translation: Vec2 { x: i64::MIN, y: i64::MIN },
        scale: Vec2 { x: i64::MAX, y: i64::MAX },
    };
    assert!(is_hit(&sprite, &transform, Vec2 { x: i64::MAX, y: i64::MAX }));
    let small = Transform { translation: Vec2 { x: i64::MIN, y: i64::MIN }, ..origin() };
    assert!(!is_hit(&back(), &small, Vec2 { x: i64::MAX, y: i64::MAX }));
    assert!(is_hit(&back(), &small, Vec2 { x: i64::MIN + 32 * PIXEL, y: i64::MIN }));
}

#[test]
fn a_click_on_the_card_starts_a_flip() {
    let mut card = resting();
    click_card(Vec2 { x: 10 * PIXEL, y: -10 * PIXEL }, &back(), &mut card, &origin());
    assert_eq!(card, started());
}

#[test]
fn a_click_on_the_card_keeps_its_face() {
    let mut card = Card { is_front: true, ..resting() };
    click_card(Vec2 { x: 0, y: 0 }, &front(), &mut card, &origin());
    assert_eq!(card, Card { is_front: true, ..started() });
}

#[test]
fn a_click_beside_the_card_changes_nothing() {
    let mut card = resting();
    click_card(Vec2 { x: 33 * PIXEL, y: 0 }, &back(), &mut card, &origin());
    assert_eq!(card, resting());
}

#[test]
fn a_click_on_a_flipping_card_changes_nothing() {
    let flipping =
        Card { is_front: true, is_flipping: true, flip_progress: 90_000_000, image_swapped: true };
    let mut card = flipping;
    click_card(Vec2 { x: 0, y: 0 }, &front(), &mut card, &origin());
    assert_eq!(card, flipping);
}

#[test]
fn only_a_fresh_press_of_the_left_button_clicks() {
    let mut card = resting();
    card_click_system(&mouse(&[]), point(0, 0), &back(), &mut card, &origin());
    assert_eq!(card, resting());
    card_click_system(&mouse(&[MouseButton::Right]), point(0, 0), &back(), &mut card, &origin());
    assert_eq!(card, resting());
    let mut held = mouse(&[MouseButton::Left]);
    held.clear();
    card_click_system(&held, point(0, 0), &back(), &mut card, &origin());
    assert_eq!(card, resting());
    card_click_system(&mouse(&[MouseButton::Left]), point(0, 0), &back(), &mut card, &origin());
    assert_eq!(card, started());
}

#[test]
fn no_click_without_a_position() {
    let mut card = resting();
    card_click_system(&mouse(&[MouseButton::Left]), None, &back(), &mut card, &origin());
    assert_eq!(card, resting());
}

#[test]
fn a_press_beside_the_card_changes_nothing() {
    let mut card = resting();
    card_click_system(
        &mouse(&[MouseButton::Left]),
        point(0, 40 * PIXEL),
        &back(),
        &mut card,
        &origin(),
    );
    assert_eq!(card, resting());
}

#[test]
fn the_width_of_the_card_over_a_flip() {
    assert_eq!(flip_scale_at(0), 1_000_000_000);
    assert_eq!(flip_scale_at(1), 999_999_986);
    assert_eq!(flip_scale_at(50_000_000), 333_333_333);
    assert_eq!(flip_scale_at(75_000_000), 0);
    assert_eq!(flip_scale_at(100_000_000), 333_333_333);
    assert_eq!(flip_scale_at(149_999_999), 999_999_986);
}

#[test]
fn a_card_at_rest_stays_as_it_is() {
    let mut sprite = back();
    let mut card = resting();
    let mut transform = Transform { scale: Vec2 { x: 123, y: 456 }, ..origin() };
    card_flip_animation_system(1_000_000_000, &FACES, &mut sprite, &mut card, &mut transform);
    assert_eq!(sprite, back());
    assert_eq!(card, resting());
    assert_eq!(transform, Transform { scale: Vec2 { x: 123, y: 456 }, ..origin() });
}

#[test]
fn a_flip_frame_by_frame() {
    let mut sprite = back();
    let mut card = started();
    let mut transform = origin();
    card_flip_animation_system(50_000_000, &FACES, &mut sprite, &mut card, &mut transform);
    assert_eq!(card, Card { flip_progress: 50_000_000, ..started() });
    assert_eq!(sprite, back());
    assert_eq!(transform.scale, Vec2 { x: 333_333_333, y: ONE });
    card_flip_animation_system(25_000_000, &FACES, &mut sprite, &mut card, &mut transform);
    assert_eq!(
        card,
        Card { is_front: true, is_flipping: true, flip_progress: 75_000_000, image_swapped: true }
    );
    assert_eq!(sprite, front());
    assert_eq!(transform.scale, Vec2 { x: 0, y: ONE });
    card_flip_animation_system(25_000_000, &FACES, &mut sprite, &mut card, &mut transform);
    assert_eq!(
        card,
        Card { is_front: true, is_flipping: true, flip_progress: 100_000_000, image_swapped: true }
    );
    assert_eq!(sprite, front());
    assert_eq!(transform.scale, Vec2 { x: 333_333_333, y: ONE });
    card_flip_animation_system(50_000_000, &FACES, &mut sprite, &mut card, &mut transform);
    assert_eq!(card, Card { is_front: true, ..resting() });
    assert_eq!(sprite, front());
    assert_eq!(transform, origin());
}

#[test]
fn the_face_is_swapped_once_in_a_flip() {
    let mut sprite = back();
    let mut card = started();
    let mut transform = origin();
    let mut swaps = 0;
    let mut frames = 0;
    while card.is_flipping {
        let before = card.is_front;
        let progress = card.flip_progress;
        card_flip_animation_system(7_000_000, &FACES, &mut sprite, &mut card, &mut transform);
        frames += 1;
        if card.is_front != before {
            swaps += 1;
            assert!(progress < 75_000_000);
            assert!(card.flip_progress >= 75_000_000);
        }
        if card.is_flipping {
            assert!(card.flip_progress > progress);
        }
    }
    assert_eq!(swaps, 1);
    assert_eq!(frames, 22);
    assert_eq!(card, Card { is_front: true, ..resting() });
    assert_eq!(sprite, front());
}

#[test]
fn a_second_flip_shows_the_back_again() {
    let mut sprite = front();
    let mut card = Card { is_front: true, ..resting() };
    let mut transform = origin();
    click_card(Vec2 { x: 0, y: 0 }, &sprite, &mut card, &transform);
    card_flip_animation_system(80_000_000, &FACES, &mut sprite, &mut card, &mut transform);
    assert_eq!(sprite, back());
    card_flip_animation_system(80_000_000, &FACES, &mut sprite, &mut card, &mut transform);
    assert_eq!(card, resting());
    assert_eq!(sprite, back());
}

#[test]
fn a_frame_as_long_as_the_flip_swaps_the_face_and_ends_it() {
    let mut sprite = back();
    let mut card = started();
    let mut transform = origin();
    card_flip_animation_system(150_000_000, &FACES, &mut sprite, &mut card, &mut transform);
    assert_eq!(card, Card { is_front: true, ..resting() });
    assert_eq!(sprite, front());
    assert_eq!(transform, origin());
}

#[test]
fn a_frame_from_below_half_to_the_end_swaps_the_face() {
    let mut sprite = back();
    let mut card = started();
    let mut transform = origin();
    card_flip_animation_system(74_999_999, &FACES, &mut sprite, &mut card, &mut transform);
    assert_eq!(sprite, back());
    card_flip_animation_system(75_000_001, &FACES, &mut sprite, &mut card, &mut transform);
    assert_eq!(card, Card { is_front: true, ..resting() });
    assert_eq!(sprite, front());
    assert_eq!(transform, origin());
}

#[test]
fn the_frame_that_ends_a_flip_does_not_swap_again() {
    let mut sprite = back();
    let mut card = started();
    let mut transform = origin();
    card_flip_animation_system(75_000_000, &FACES, &mut sprite, &mut card, &mut transform);
    assert_eq!(sprite, front());
    card_flip_animation_system(1_000_000_000, &FACES, &mut sprite, &mut card, &mut transform);
    assert_eq!(card, Card { is_front: true, ..resting() });
    assert_eq!(sprite, front());
}

#[test]
fn two_flips_show_the_first_face_however_long_the_frames() {
    let frames: [&[u64]; 4] = [
        &[150_000_000],
        &[75_000_000, 75_000_000],
        &[10_000_000, 200_000_000],
        &[7_000_000; 22],
    ];
    for first in frames {
        for second in frames {
            let mut sprite = back();
            let mut card = resting();
            let mut transform = origin();
            for flip in [first, second] {
                click_card(Vec2 { x: 0, y: 0 }, &sprite, &mut card, &transform);
                assert!(card.is_flipping);
                let before = card.is_front;
                for delta in flip {
                    card_flip_animation_system(
                        *delta,
                        &FACES,
                        &mut sprite,
                        &mut card,
                        &mut transform,
                    );
                }
                assert!(!card.is_flipping);
                assert_eq!(card.is_front, !before);
            }
            assert_eq!(card, resting());
            assert_eq!(sprite, back());
            assert_eq!(transform, origin());
        }
    }
}

#[test]
fn the_longest_frame_ends_the_flip() {
    let mut sprite = back();
    let mut card = Card { flip_progress: u64::MAX, ..started() };
    let mut transform = origin();
    card_flip_animation_system(u64::MAX, &FACES, &mut sprite, &mut card, &mut transform);
    assert_eq!(card, Card { is_front: true, ..resting() });
    assert_eq!(sprite, front());
}

#[test]
fn a_frame_just_short_of_the_end() {
    let mut sprite = back();
    let mut card = started();
    let mut transform = origin();
    card_flip_animation_system(149_999_999, &FACES, &mut sprite, &mut card, &mut transform);
    assert_eq!(
        card,
        Card { is_front: true, is_flipping: true, flip_progress: 149_999_999, image_swapped: true }
    );
    assert_eq!(sprite, front());
    assert_eq!(transform.scale.x, 999_999_986);
}

#[test]
fn a_frame_just_short_of_the_middle() {
    let mut sprite = back();
    let mut card = started();
    let mut transform = origin();
    card_flip_animation_system(74_999_999, &FACES, &mut sprite, &mut card, &mut transform);
    assert_eq!(card, Card { flip_progress: 74_999_999, ..started() });
    assert_eq!(sprite, back());
    assert_eq!(transform.scale.x, 13);
}

#[test]
fn a_click_and_a_flip() {
    let mut world = World::empty(AppState::CardFlipScene);
    setup_card_flip_scene(&mut world);
    let faces = world.card_images.expect("the scene loads the faces");
    let entity = world.entities.remove(0);
    let Bundle::Card { mut sprite, mut transform, mut card } = entity.bundle else {
        panic!("the first entity is the card");
    };
    let click = mouse(&[MouseButton::Left]);
    let idle = mouse(&[]);
    card_click_system(&click, point(5 * PIXEL, 5 * PIXEL), &sprite, &mut card, &transform);
    card_flip_animation_system(16_000_000, &faces, &mut sprite, &mut card, &mut transform);
    assert!(card.is_flipping);
    assert_eq!(card.flip_progress, 16_000_000);
    for _ in 0..20 {
        card_click_system(&idle, point(5 * PIXEL, 5 * PIXEL), &sprite, &mut card, &transform);
        card_flip_animation_system(16_000_000, &faces, &mut sprite, &mut card, &mut transform);
    }
    assert_eq!(card, Card { is_front: true, ..resting() });
    assert_eq!(sprite.image, Image::CardFront);
    assert_eq!(transform, origin());
}
