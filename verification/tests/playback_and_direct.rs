use hero_anim::input::KeyEdges;
use hero_anim::playback::Player;
use hero_anim::registry::{target_role, Animations, STAND_FORWARD, WALK_FORWARD};
use hero_anim::scene::{Facing, Scene};

fn all_edges(
    lp: bool,
    lr: bool,
    rp: bool,
    rr: bool,
    up: bool,
    ur: bool,
) -> KeyEdges {
    KeyEdges {
        left_pressed: lp,
        left_released: lr,
        right_pressed: rp,
        right_released: rr,
        up_pressed: up,
        up_released: ur,
    }
}

#[test]
fn repeated_play_command_does_not_restart() {
    let mut p = Player::new();
    p.play_repeat(7);
    assert_eq!(p.clip, Some(7));
    assert_eq!(p.elapsed, 0);
    assert!(p.repeating);
    p.advance(40);
    p.play_repeat(7);
    assert_eq!(p.elapsed, 40);
    p.advance(3);
    p.play_repeat(7);
    assert_eq!(p.elapsed, 43);
}

#[test]
fn playing_a_different_clip_restarts() {
    let mut p = Player::new();
    p.play_repeat(7);
    p.advance(40);
    p.play_repeat(8);
    assert_eq!(p.clip, Some(8));
    assert_eq!(p.elapsed, 0);
}

#[test]
fn playback_position_saturates() {
    let mut p = Player::new();
    p.play_repeat(1);
    p.advance(u64::MAX - 1);
    p.advance(5);
    assert_eq!(p.elapsed, u64::MAX);
}

#[test]
fn target_role_resolves_walk_or_stand() {
    assert_eq!(target_role(-1), WALK_FORWARD);
    assert_eq!(target_role(1), WALK_FORWARD);
    assert_eq!(target_role(0), STAND_FORWARD);
}

#[test]
fn registry_maps_each_role_to_its_clip() {
    let a = Animations::new(vec![20, 21, 22, 23, 24, 25]);
    assert_eq!(a.clip_for(hero_anim::registry::STAND_ANGLED), 20);
    assert_eq!(a.clip_for(hero_anim::registry::STAND_UP), 21);
    assert_eq!(a.clip_for(hero_anim::registry::WALK_FORWARD), 22);
    assert_eq!(a.clip_for(hero_anim::registry::WALK_ANGLED), 23);
    assert_eq!(a.clip_for(hero_anim::registry::WALK_UP), 24);
    assert_eq!(a.clip_for(hero_anim::registry::STAND_FORWARD), 25);
}

fn direct_scene() -> Scene {
    let mut s = Scene::new(Animations::new(vec![10, 11, 12, 13, 14, 15]));
    s.attach_player();
    s.spawn_hero();
    s
}

#[test]
fn direct_variant_left_press() {
    let mut s = direct_scene();
    s.keyboard_directly_controls_animation(all_edges(true, false, false, false, false, false));
    let hero = s.hero.unwrap();
    assert_eq!(hero.movement.look.x, -1);
    assert_eq!(hero.facing, Facing::TowardNegX);
    assert_eq!(s.player.unwrap().clip, Some(12));
}

#[test]
fn direct_variant_release_stands() {
    let mut s = direct_scene();
    s.keyboard_directly_controls_animation(all_edges(true, false, false, false, false, false));
    s.keyboard_directly_controls_animation(all_edges(false, true, false, false, false, false));
    let hero = s.hero.unwrap();
    assert_eq!(hero.movement.look.x, 0);
    assert_eq!(hero.facing, Facing::TowardNegX);
    assert_eq!(s.player.unwrap().clip, Some(15));
}

#[test]
fn direct_variant_up_key_selects_up_clip() {
    let mut s = direct_scene();
    s.keyboard_directly_controls_animation(all_edges(false, false, false, false, true, false));
    assert_eq!(s.player.unwrap().clip, Some(11));
    assert_eq!(s.hero.unwrap().movement.look.x, 0);
    s.keyboard_directly_controls_animation(all_edges(false, false, false, false, false, true));
    assert_eq!(s.player.unwrap().clip, Some(15));
}

#[test]
fn direct_variant_up_press_overrides_walk_command() {
    // LEFT and UP pressed together: LEFT's walk command is issued first,
    // then UP's stand command replaces it, while the intent stays leftward.
    let mut s = direct_scene();
    s.keyboard_directly_controls_animation(all_edges(true, false, false, false, true, false));
    assert_eq!(s.player.unwrap().clip, Some(11));
    assert_eq!(s.hero.unwrap().movement.look.x, -1);
    assert_eq!(s.hero.unwrap().facing, Facing::TowardNegX);
}

#[test]
fn direct_variant_no_sink_is_a_no_op() {
    let mut s = Scene::new(Animations::new(vec![10, 11, 12, 13, 14, 15]));
    s.keyboard_directly_controls_animation(all_edges(true, false, false, false, false, false));
    assert!(s.player.is_none());
    assert!(s.hero.is_none());
}
