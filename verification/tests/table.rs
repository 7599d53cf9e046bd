use rusty_robot::table::Table;

#[test]
fn valid() {
    let t = Table {
        width: 1,
        height: 1,
    };
    assert_eq!(t.is_valid(0, 0), true);
    assert_eq!(t.is_valid(1, 0), false);
    assert_eq!(t.is_valid(0, 1), false);
}

#[test]
fn every_cell_and_no_other_is_valid() {
    let t = Table { width: 3, height: 2 };
    for x in 0..6 {
        for y in 0..6 {
            assert_eq!(t.is_valid(x, y), x < 3 && y < 2, "({}, {})", x, y);
        }
    }
}

#[test]
fn far_points_are_invalid() {
    let t = Table { width: 5, height: 5 };
    assert!(!t.is_valid(usize::MAX, 0));
    assert!(!t.is_valid(0, usize::MAX));
    assert!(!t.is_valid(usize::MAX, usize::MAX));
    assert!(t.is_valid(4, 4));
    assert!(!t.is_valid(5, 4));
    assert!(!t.is_valid(4, 5));
}

#[test]
fn widest_table_has_no_cell_beyond_its_edge() {
    let t = Table { width: usize::MAX, height: 1 };
    assert!(t.is_valid(usize::MAX - 1, 0));
    assert!(!t.is_valid(usize::MAX, 0));
    assert!(!t.is_valid(0, 1));
}
