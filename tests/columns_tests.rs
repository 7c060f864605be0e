use procmaster::columns::{ColumnVisibility, COLUMN_COUNT};

#[test]
fn toggling_twice_restores_visibility() {
    let mut v = ColumnVisibility::all_shown(COLUMN_COUNT);
    v.toggle(3);
    v.toggle(5);
    let before = v.shown.clone();
    v.toggle(5);
    assert!(v.is_shown(5));
    v.toggle(5);
    assert_eq!(v.shown, before);
}

#[test]
fn toggle_flips_one_column_only() {
    let mut v = ColumnVisibility::all_shown(4);
    v.toggle(2);
    assert_eq!(v.shown, vec![true, true, false, true]);
}

#[test]
fn toggle_past_schema_is_ignored() {
    let mut v = ColumnVisibility::all_shown(2);
    v.toggle(9);
    assert_eq!(v.shown, vec![true, true]);
    assert!(!v.is_shown(9));
}
