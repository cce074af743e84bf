use platformer::player::steering;
use platformer::render::{BlockKind, LAYER_PLAYER, LAYER_PROP, LAYER_TERRAIN};
use platformer::text::push_decimal;

#[test]
fn holding_both_directions_cancels_out() {
    assert_eq!(steering(true, true, false), (0, false));
    assert_eq!(steering(true, true, true), (0, true));
}

#[test]
fn steering_sets_the_facing() {
    assert_eq!(steering(true, false, false), (-1, true));
    assert_eq!(steering(false, true, true), (1, false));
    assert_eq!(steering(false, false, true), (0, true));
    assert_eq!(steering(false, false, false), (0, false));
}

#[test]
fn blocks_are_extruded_by_role() {
    assert_eq!(BlockKind::Solid.depth(), 32);
    assert_eq!(BlockKind::OneWay.depth(), 32);
    assert_eq!(BlockKind::Moving.depth(), 32);
    assert_eq!(BlockKind::Coin.depth(), 16);
    assert_eq!(BlockKind::Hazard.depth(), 16);
    assert_eq!(BlockKind::GoalPole.depth(), 16);
    assert_eq!(BlockKind::GoalFlag.depth(), 16);
    assert_eq!(BlockKind::Player.depth(), 20);
}

#[test]
fn layers_stack_in_front_of_the_level_plane() {
    assert_eq!(LAYER_TERRAIN, 0);
    assert_eq!(LAYER_PROP, 25);
    assert_eq!(LAYER_PLAYER, 44);
}

#[test]
fn decimals_have_no_leading_zeros() {
    let mut text = String::from("n=");
    push_decimal(&mut text, 0);
    assert_eq!(text, "n=0");
    let mut text = String::new();
    push_decimal(&mut text, 1_000_000_007);
    assert_eq!(text, "1000000007");
    let mut text = String::new();
    push_decimal(&mut text, u64::MAX);
    assert_eq!(text, u64::MAX.to_string());
}
