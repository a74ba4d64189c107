use rabbit_jump::ground::Ground;

#[test]
fn test_new_ground() {
    let pattern = "===".to_string();
    let ground = Ground::new(pattern.clone());
    assert_eq!(ground.pattern_chars, vec!['=', '=', '=']);
    assert_eq!(ground.offset, 0);
}

#[test]
fn test_get_visible_slice() {
    let ground = Ground::new("-^-.-^.".to_string());
    assert_eq!(ground.get_visible_slice(5), "-^-.-");

    let ground2 = Ground::new("-^-.-^.".to_string());
    assert_eq!(ground2.get_visible_slice(10), "-^-.-^.-^-");
}

#[test]
fn test_scroll() {
    let mut ground = Ground::new("-^-.-^.".to_string());
    ground.scroll(Some(1));
    assert_eq!(ground.offset, 1);

    let mut ground2 = Ground::new("-^-.-^.".to_string());
    ground2.scroll(None);
    assert_eq!(ground2.offset, 1);
}

#[test]
fn test_visible_slice_wraps_from_offset() {
    let mut ground = Ground::new("abc".to_string());
    ground.scroll(Some(4));
    assert_eq!(ground.get_visible_slice(5), "bcabc");
}

#[test]
fn test_visible_slice_periodic_after_pattern_length() {
    let mut ground = Ground::new("-^-.-^.".to_string());
    ground.scroll(Some(2));
    let before = ground.get_visible_slice(12);
    ground.scroll(Some(7));
    let after = ground.get_visible_slice(12);
    assert_eq!(before, after);
}

#[test]
fn test_visible_slice_empty_cases() {
    let ground = Ground::new(String::new());
    assert_eq!(ground.get_visible_slice(8), "");

    let ground2 = Ground::new("-^-".to_string());
    assert_eq!(ground2.get_visible_slice(0), "");
}

#[test]
fn test_offset_accessor_counts_scrolls() {
    let mut ground = Ground::new("ab".to_string());
    assert_eq!(ground.offset(), 0);
    for _ in 0..5 {
        ground.scroll(None);
    }
    assert_eq!(ground.offset(), 5);
}
