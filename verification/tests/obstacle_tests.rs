use rabbit_jump::cactus::{
    get_new_obstacle, obstacle_from_byte, CactusType, ObstacleVec, ShortCactus, TallCactus,
};

#[test]
fn test_short_cactus_new_aligns_right_edge() {
    let cactus = ShortCactus::new(100);
    let (x, width, height, art) = cactus.get_all_attr();
    assert_eq!(x, 97);
    assert_eq!(width, 3);
    assert_eq!(height, 4);
    assert_eq!(art, "#\n# #\n###\n  #\n");
}

#[test]
fn test_tall_cactus_new_aligns_right_edge() {
    let cactus = TallCactus::new(100);
    let (x, width, height, art) = cactus.get_all_attr();
    assert_eq!(x, 93);
    assert_eq!(width, 7);
    assert_eq!(height, 5);
    assert_eq!(art, "    #\n#   # #\n# # ###\n### #\n  # #\n");
}

#[test]
fn test_update_x_moves_left() {
    let mut cactus = CactusType::Short(ShortCactus::new(50));
    cactus.update_x(1);
    assert_eq!(cactus.get_x(), 46);
}

#[test]
fn test_update_x_saturates_at_zero() {
    let mut cactus = CactusType::Short(ShortCactus::new(5));
    assert_eq!(cactus.get_x(), 2);
    cactus.update_x(1000);
    assert_eq!(cactus.get_x(), 0);
    cactus.update_x(1);
    assert_eq!(cactus.get_x(), 0);
}

#[test]
fn test_obstacle_from_byte_even_is_short() {
    let cactus = obstacle_from_byte(4, 100);
    match cactus {
        CactusType::Short(s) => assert_eq!(s.get_all_attr().0, 97),
        CactusType::Tall(_) => panic!("an even byte must give a short cactus"),
    }
}

#[test]
fn test_obstacle_from_byte_odd_is_tall() {
    let cactus = obstacle_from_byte(7, 100);
    match cactus {
        CactusType::Tall(t) => assert_eq!(t.get_all_attr().0, 93),
        CactusType::Short(_) => panic!("an odd byte must give a tall cactus"),
    }
}

#[test]
fn test_get_new_obstacle_spawns_at_right_edge() {
    // The kind is random, but either way the obstacle's right edge is
    // the right edge of the frame.
    let cactus = get_new_obstacle(80);
    let (x, width, _, _) = cactus.get_all_attr();
    assert_eq!(x + width, 80);
}

#[test]
fn test_update_obstacles_advances_every_obstacle() {
    let mut set = ObstacleVec::new();
    set.push_obstacle(obstacle_from_byte(0, 100));
    set.push_obstacle(obstacle_from_byte(1, 100));
    set.update_obstacles(Some(10));
    assert_eq!(set.get_obstacles()[0].get_x(), 87);
    assert_eq!(set.get_obstacles()[1].get_x(), 83);
}

#[test]
fn test_update_obstacles_default_step_is_one() {
    let mut set = ObstacleVec::new();
    set.push_obstacle(obstacle_from_byte(0, 100));
    set.update_obstacles(None);
    assert_eq!(set.get_obstacles()[0].get_x(), 96);
}

#[test]
fn test_update_obstacles_saturates_at_zero() {
    let mut set = ObstacleVec::new();
    set.push_obstacle(obstacle_from_byte(0, 8));
    set.push_obstacle(obstacle_from_byte(1, 100));
    set.update_obstacles(Some(40000));
    assert_eq!(set.get_obstacles()[0].get_x(), 0);
    assert_eq!(set.get_obstacles()[1].get_x(), 0);

    let mut far = ObstacleVec::new();
    far.push_obstacle(obstacle_from_byte(0, 100));
    far.update_obstacles(Some(isize::MAX));
    assert_eq!(far.get_obstacles()[0].get_x(), 0);
}

#[test]
fn test_remove_obstacle_drops_exactly_the_grounded_out() {
    let mut set = ObstacleVec::new();
    set.push_obstacle(CactusType::Short(ShortCactus::new(3)));
    set.push_obstacle(obstacle_from_byte(0, 40));
    set.push_obstacle(CactusType::Tall(TallCactus::new(7)));
    set.push_obstacle(obstacle_from_byte(1, 60));
    assert_eq!(set.get_obstacles()[0].get_x(), 0);
    assert_eq!(set.get_obstacles()[2].get_x(), 0);
    set.remove_obstacle();
    // Exactly the two obstacles at position zero are gone and the
    // survivors keep their relative order.
    assert_eq!(set.get_obstacles().len(), 2);
    assert_eq!(set.get_obstacles()[0].get_x(), 37);
    assert_eq!(set.get_obstacles()[1].get_x(), 53);
}

#[test]
fn test_remove_obstacle_on_empty_set_is_noop() {
    let mut set = ObstacleVec::new();
    set.remove_obstacle();
    assert_eq!(set.get_obstacles().len(), 0);
    set.remove_obstacle();
    assert_eq!(set.get_obstacles().len(), 0);
}

#[test]
fn test_nearest_returns_oldest_survivor() {
    let mut set = ObstacleVec::new();
    assert!(set.nearest().is_none());
    set.push_obstacle(obstacle_from_byte(0, 50));
    set.push_obstacle(obstacle_from_byte(0, 90));
    let nearest = set.nearest().unwrap();
    assert_eq!(nearest.get_x(), 47);
}

#[test]
fn test_add_new_obstacle_appends_at_frame_edge() {
    let mut set = ObstacleVec::new();
    let frame = rabbit_jump::rect::get_default_frame_rect(100, 21);
    set.add_new_obstacle(frame);
    set.add_new_obstacle(frame);
    assert_eq!(set.get_obstacles().len(), 2);
    for cactus in set.get_obstacles() {
        let (x, width, _, _) = cactus.get_all_attr();
        assert_eq!(x + width, 100);
    }
}
