use sprite_animation::{
    execute_animations, trigger_animation, AnimatedSprite, AnimationConfig, TriggerError,
};

const MS: u64 = 1_000_000;
const WAGGING: u32 = 1;
const IDLE: u32 = 2;

fn scene() -> Vec<AnimatedSprite> {
    vec![
        AnimatedSprite::new(AnimationConfig::new(1, 22, 20), Some(1), WAGGING),
        AnimatedSprite::new(AnimationConfig::new(0, 3, 10), Some(3), IDLE),
        AnimatedSprite::new(AnimationConfig::new(5, 9, 50), None, IDLE),
    ]
}

#[test]
fn execute_animations_on_no_sprites() {
    let mut sprites: Vec<AnimatedSprite> = Vec::new();
    execute_animations(&mut sprites, 50 * MS);
    assert!(sprites.is_empty());
}

#[test]
fn execute_animations_advances_each_sprite_by_itself() {
    let mut sprites = scene();
    execute_animations(&mut sprites, 50 * MS);
    assert_eq!(sprites.len(), 3);
    assert_eq!(sprites[0].frame_index(), Some(2));
    assert_eq!(sprites[0].config().frame_timer().elapsed_nanos(), 0);
    assert_eq!(sprites[1].frame_index(), Some(3));
    assert_eq!(sprites[1].config().frame_timer().elapsed_nanos(), 50 * MS);
    assert_eq!(sprites[2].frame_index(), None);
    assert_eq!(sprites[2].config().frame_timer().elapsed_nanos(), 20 * MS);
    assert!(sprites[2].config().frame_timer().is_finished());

    execute_animations(&mut sprites, 50 * MS);
    assert_eq!(sprites[0].frame_index(), Some(3));
    assert_eq!(sprites[1].frame_index(), Some(0));
    assert!(sprites[1].config().frame_timer().is_finished());
    assert_eq!(sprites[2].frame_index(), None);
}

#[test]
fn execute_animations_matches_advance() {
    let mut sprites = scene();
    let mut expected = scene();
    for delta in [10 * MS, 45 * MS, 0, 100 * MS, 3 * MS] {
        execute_animations(&mut sprites, delta);
        for sprite in expected.iter_mut() {
            sprite.advance(delta);
        }
        assert_eq!(sprites, expected);
    }
}

#[test]
fn sprite_without_target_never_gets_a_frame() {
    let mut sprites = vec![AnimatedSprite::new(AnimationConfig::new(1, 22, 20), None, WAGGING)];
    for _ in 0..50 {
        execute_animations(&mut sprites, 50 * MS);
        assert_eq!(sprites[0].frame_index(), None);
        assert_eq!(trigger_animation(&mut sprites, WAGGING), Ok(()));
        assert_eq!(sprites[0].frame_index(), None);
    }
}

#[test]
fn trigger_restarts_the_marked_sprite_only() {
    let mut sprites = scene();
    execute_animations(&mut sprites, 30 * MS);
    let before = sprites.clone();
    assert_eq!(trigger_animation(&mut sprites, WAGGING), Ok(()));
    assert_eq!(sprites[0].frame_index(), Some(1));
    assert_eq!(sprites[0].config().frame_timer().elapsed_nanos(), 0);
    assert_eq!(sprites[0].config(), AnimationConfig::new(1, 22, 20));
    assert_eq!(sprites[1], before[1]);
    assert_eq!(sprites[2], before[2]);
}

#[test]
fn trigger_without_a_match_is_refused() {
    let mut sprites = scene();
    execute_animations(&mut sprites, 30 * MS);
    let before = sprites.clone();
    assert_eq!(trigger_animation(&mut sprites, 77), Err(TriggerError::NoMatch));
    assert_eq!(sprites, before);
}

#[test]
fn trigger_on_no_sprites_is_refused() {
    let mut sprites: Vec<AnimatedSprite> = Vec::new();
    assert_eq!(trigger_animation(&mut sprites, WAGGING), Err(TriggerError::NoMatch));
    assert!(sprites.is_empty());
}

#[test]
fn trigger_with_several_matches_is_refused() {
    let mut sprites = scene();
    execute_animations(&mut sprites, 30 * MS);
    let before = sprites.clone();
    assert_eq!(trigger_animation(&mut sprites, IDLE), Err(TriggerError::MultipleMatches));
    assert_eq!(sprites, before);
}

#[test]
fn trigger_finds_a_match_at_the_end() {
    let mut sprites = scene();
    sprites.push(AnimatedSprite::new(AnimationConfig::new(0, 1, 2), Some(0), 5));
    execute_animations(&mut sprites, 30 * MS);
    assert_eq!(trigger_animation(&mut sprites, 5), Ok(()));
    assert_eq!(sprites[3].config().frame_timer().elapsed_nanos(), 0);
    assert_eq!(sprites[0].config().frame_timer().elapsed_nanos(), 30 * MS);
}

#[test]
fn rapid_triggers_keep_the_frame_and_reset_the_pace() {
    let mut sprites = scene();
    execute_animations(&mut sprites, 50 * MS);
    execute_animations(&mut sprites, 30 * MS);
    assert_eq!(sprites[0].frame_index(), Some(2));
    assert_eq!(trigger_animation(&mut sprites, WAGGING), Ok(()));
    let once = sprites.clone();
    assert_eq!(trigger_animation(&mut sprites, WAGGING), Ok(()));
    assert_eq!(trigger_animation(&mut sprites, WAGGING), Ok(()));
    assert_eq!(sprites, once);
    assert_eq!(sprites[0].frame_index(), Some(2));
    execute_animations(&mut sprites, 30 * MS);
    assert_eq!(sprites[0].frame_index(), Some(2));
    execute_animations(&mut sprites, 20 * MS);
    assert_eq!(sprites[0].frame_index(), Some(3));
}

#[test]
fn trigger_wakes_a_sprite_that_rests_after_a_wrap() {
    let mut sprites = vec![AnimatedSprite::new(AnimationConfig::new(1, 22, 20), Some(1), WAGGING)];
    for _ in 0..22 {
        execute_animations(&mut sprites, 50 * MS);
    }
    assert_eq!(sprites[0].frame_index(), Some(1));
    execute_animations(&mut sprites, 50 * MS);
    assert_eq!(sprites[0].frame_index(), Some(1));
    assert_eq!(trigger_animation(&mut sprites, WAGGING), Ok(()));
    execute_animations(&mut sprites, 50 * MS);
    assert_eq!(sprites[0].frame_index(), Some(2));
}
