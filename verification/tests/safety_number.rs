use construct_tui::screens::safety_number::{compute_safety_number, SafetyNumberScreen};

#[test]
fn safety_number_is_symmetric() {
    let key_a = [1u8; 32];
    let key_b = [2u8; 32];
    assert_eq!(
        compute_safety_number(&key_a, &key_b),
        compute_safety_number(&key_b, &key_a),
    );
}

#[test]
fn safety_number_has_twelve_groups() {
    let key_a = [0xABu8; 32];
    let key_b = [0xCDu8; 32];
    let sn = compute_safety_number(&key_a, &key_b);
    assert_eq!(sn.split_whitespace().count(), 12);
}

#[test]
fn safety_number_groups_are_5_digits() {
    let key_a = [42u8; 32];
    let key_b = [99u8; 32];
    let sn = compute_safety_number(&key_a, &key_b);
    for group in sn.split_whitespace() {
        assert_eq!(group.len(), 5);
        assert!(group.chars().all(|c| c.is_ascii_digit()));
    }
}

#[test]
fn safety_number_grid_is_four_by_three() {
    let screen = SafetyNumberScreen::new("bob".to_string(), &[1u8; 32], &[2u8; 32]);
    let grid = screen.formatted_grid();
    assert_eq!(grid.len(), 4);
    for row in &grid {
        assert_eq!(row.split("  ").count(), 3);
        assert_eq!(row.len(), 19);
    }
    assert_eq!(grid.join("  ").replace("  ", " "), screen.number);
}
