use rabbit_jump::rabbit::{Rabbit, GRAVITY, JUMP_STRENGTH, RABBIT_X_POS};

#[test]
fn test_new_rabbit_is_grounded() {
    let rabbit = Rabbit::new();
    assert_eq!(rabbit.x, RABBIT_X_POS);
    assert_eq!(rabbit.y, 0);
    assert_eq!(rabbit.velocity, 0);
}

#[test]
fn test_jump_from_ground_sets_jump_strength() {
    let mut rabbit = Rabbit::new();
    rabbit.jump();
    assert_eq!(rabbit.velocity, JUMP_STRENGTH);
    assert_eq!(rabbit.y, 0);
}

#[test]
fn test_first_step_after_jump() {
    let mut rabbit = Rabbit::new();
    rabbit.jump();
    rabbit.update_physics();
    assert_eq!(rabbit.y, JUMP_STRENGTH as u32);
    assert_eq!(rabbit.velocity, JUMP_STRENGTH - GRAVITY);
}

#[test]
fn test_jump_while_airborne_is_noop() {
    let mut rabbit = Rabbit::new();
    rabbit.jump();
    rabbit.update_physics();
    let v_before = rabbit.velocity;
    let y_before = rabbit.y;
    rabbit.jump();
    assert_eq!(rabbit.velocity, v_before);
    assert_eq!(rabbit.y, y_before);
}

#[test]
fn test_jump_while_ascending_is_noop() {
    let mut rabbit = Rabbit::new();
    rabbit.jump();
    // Height is still zero but the velocity is upward: still a no-op.
    rabbit.jump();
    assert_eq!(rabbit.velocity, JUMP_STRENGTH);
}

#[test]
fn test_idle_rabbit_stays_on_ground() {
    let mut rabbit = Rabbit::new();
    for _ in 0..10 {
        rabbit.update_physics();
        assert_eq!(rabbit.y, 0);
        assert_eq!(rabbit.velocity, 0);
    }
}

#[test]
fn test_landing_resets_exactly_and_rejump_succeeds() {
    let mut rabbit = Rabbit::new();
    rabbit.jump();
    let mut steps = 0;
    while rabbit.y > 0 || rabbit.velocity > 0 {
        rabbit.update_physics();
        steps += 1;
        assert!(steps < 1000, "the jump arc must come back down");
    }
    assert_eq!(rabbit.y, 0);
    assert_eq!(rabbit.velocity, 0);
    rabbit.jump();
    assert_eq!(rabbit.velocity, JUMP_STRENGTH);
}

#[test]
fn test_jump_arc_spans_multiple_ticks() {
    let mut rabbit = Rabbit::new();
    rabbit.jump();
    let mut airborne_ticks = 0;
    rabbit.update_physics();
    while rabbit.y > 0 {
        airborne_ticks += 1;
        assert!(airborne_ticks < 1000);
        rabbit.update_physics();
    }
    // Gravity is far smaller than the jump strength, so the arc lasts
    // dozens of ticks.
    assert!(airborne_ticks > 10);
}

#[test]
fn test_get_top_y_grounded() {
    let rabbit = Rabbit::new();
    // Ground line at row 18, rabbit 3 cells tall: its top edge is row 15.
    assert_eq!(rabbit.get_top_y(18), 15);
}

#[test]
fn test_get_top_y_mid_jump() {
    let mut rabbit = Rabbit::new();
    rabbit.jump();
    rabbit.update_physics();
    // One cell of height gained: the top edge moves one row up.
    assert_eq!(rabbit.get_top_y(18), 14);
}

#[test]
fn test_get_top_y_clamps_at_screen_top() {
    let rabbit = Rabbit::new();
    assert_eq!(rabbit.get_top_y(2), 0);
}
