use std::collections::HashSet;
use xy::Orientation;
use xy::XY;

#[test]
fn new_stores_x_then_y() {
    let v = XY::new(1, 2);
    assert_eq!(v.x, 1);
    assert_eq!(v.y, 2);
}

#[test]
fn fold_passes_x_then_y() {
    assert_eq!(XY::new(10, 3).fold(|a: i32, b: i32| a - b), 7);
    assert_eq!(XY::new(3, 10).fold(|a: i32, b: i32| a - b), -7);
}

#[test]
fn fold_may_consume_owned_values() {
    let v = XY::new(String::from("ab"), String::from("cd"));
    assert_eq!(v.fold(|a: String, b: String| a + &b), "abcd");
}

#[test]
fn map_x_leaves_y() {
    assert_eq!(XY::new(1, 2).map_x(|n: i32| n + 10), XY::new(11, 2));
}

#[test]
fn map_y_leaves_x() {
    assert_eq!(XY::new(1, 2).map_y(|n: i32| n + 10), XY::new(1, 12));
}

#[test]
fn pair_is_x_then_y() {
    assert_eq!(XY::new('a', 'b').pair(), ('a', 'b'));
}

#[test]
fn as_ref_borrows_both_axes() {
    let v = XY::new(String::from("x"), String::from("y"));
    let r = v.as_ref();
    assert_eq!(r.x, &v.x);
    assert_eq!(r.y, &v.y);
    assert!(std::ptr::eq(r.x, &v.x));
    assert!(std::ptr::eq(r.y, &v.y));
}

#[test]
fn iter_yields_x_then_y() {
    let v = XY::new(4, 9);
    let seen: Vec<i32> = v.iter().into_iter().map(|n| *n).collect();
    assert_eq!(seen, vec![4, 9]);
}

#[test]
fn iter_has_two_items_and_restarts() {
    let v = XY::new(7, 7);
    assert_eq!(v.iter().len(), 2);
    let first: i32 = v.iter().into_iter().sum();
    let second: i32 = v.iter().into_iter().sum();
    assert_eq!(first, 14);
    assert_eq!(second, 14);
}

#[test]
fn get_selects_by_orientation() {
    let v = XY::new(1, 2);
    assert_eq!(*v.get(Orientation::Horizontal), 1);
    assert_eq!(*v.get(Orientation::Vertical), 2);
}

#[test]
fn get_mut_updates_selected_axis_only() {
    let mut v = XY::new(1, 2);
    *v.get_mut(Orientation::Horizontal) = 10;
    assert_eq!(v, XY::new(10, 2));
    *v.get_mut(Orientation::Vertical) += 5;
    assert_eq!(v, XY::new(10, 7));
}

#[test]
fn zip_pairs_same_axis_values() {
    let r = XY::new(1, 2).zip(XY::new('a', 'b'));
    assert_eq!(r, XY::new((1, 'a'), (2, 'b')));
}

#[test]
fn from_pair_of_containers_zips() {
    let r: XY<(i32, bool)> = XY::from((XY::new(1, 2), XY::new(true, false)));
    assert_eq!(r, XY::new((1, true), (2, false)));
}

#[test]
fn with_axis_from_takes_one_axis_of_other() {
    let v = XY::new(1, 2);
    let other = XY::new(10, 20);
    assert_eq!(v.with_axis_from(Orientation::Horizontal, &other), XY::new(10, 2));
    assert_eq!(v.with_axis_from(Orientation::Vertical, &other), XY::new(1, 20));
    assert_eq!(v, XY::new(1, 2));
    assert_eq!(other, XY::new(10, 20));
}

#[test]
fn set_axis_from_changes_in_place() {
    let mut v = XY::new(1, 2);
    let other = XY::new(10, 20);
    v.set_axis_from(Orientation::Vertical, &other);
    assert_eq!(v, XY::new(1, 20));
    v.set_axis_from(Orientation::Horizontal, &other);
    assert_eq!(v, XY::new(10, 20));
}

#[test]
fn select_keeps_flagged_axes() {
    let other = XY::new(5, 6);
    assert_eq!(XY::new(true, false).select(other), XY::new(Some(5), None));
    assert_eq!(XY::new(false, true).select(other), XY::new(None, Some(6)));
    assert_eq!(XY::new(true, true).select(other), XY::new(Some(5), Some(6)));
    assert_eq!(XY::new(false, false).select(other), XY::new(None, None));
}

#[test]
fn select_then_unwrap_or_is_select_or() {
    let if_true = XY::new(1, 2);
    let if_false = XY::new(10, 20);
    for x in [false, true] {
        for y in [false, true] {
            let c = XY::new(x, y);
            assert_eq!(c.select(if_true).unwrap_or(if_false), c.select_or(if_true, if_false));
        }
    }
}

#[test]
fn any_and_both_truth_table() {
    assert_eq!(XY::new(false, false).any(), false);
    assert_eq!(XY::new(true, false).any(), true);
    assert_eq!(XY::new(false, true).any(), true);
    assert_eq!(XY::new(true, true).any(), true);
    assert_eq!(XY::new(false, false).both(), false);
    assert_eq!(XY::new(true, false).both(), false);
    assert_eq!(XY::new(false, true).both(), false);
    assert_eq!(XY::new(true, true).both(), true);
}

#[test]
fn both_from_duplicates_the_value() {
    assert_eq!(XY::both_from(3), XY::new(3, 3));
}

#[test]
fn orientation_get_clones_selected_axis() {
    let v = XY::new(String::from("h"), String::from("v"));
    assert_eq!(Orientation::Horizontal.get(&v), "h");
    assert_eq!(Orientation::Vertical.get(&v), "v");
    assert_eq!(v, XY::new(String::from("h"), String::from("v")));
}

#[test]
fn orientation_get_ref_writes_selected_axis() {
    let mut v = XY::new(1, 2);
    *Orientation::Vertical.get_ref(&mut v) = 8;
    assert_eq!(v, XY::new(1, 8));
    *Orientation::Horizontal.get_ref(&mut v) = 6;
    assert_eq!(v, XY::new(6, 8));
}

#[test]
fn with_axis_then_get_reads_new_value_and_keeps_other() {
    let v = XY::new(1, 2);
    for o in [Orientation::Horizontal, Orientation::Vertical] {
        let r = v.with_axis(o, 50);
        assert_eq!(*r.get(o), 50);
        for read in [Orientation::Horizontal, Orientation::Vertical] {
            if read != o {
                assert_eq!(r.get(read), v.get(read));
            }
        }
    }
}

#[test]
fn equality_is_axis_by_axis() {
    assert_eq!(XY::new(1, 2), XY::new(1, 2));
    assert_ne!(XY::new(1, 2), XY::new(2, 1));
    assert_ne!(XY::new(1, 2), XY::new(1, 3));
    assert_ne!(XY::new(1, 2), XY::new(0, 2));
}

#[test]
fn clone_copies_both_axes() {
    let v = XY::new(vec![1, 2], vec![3]);
    let c = v.clone();
    assert_eq!(c, v);
    assert_eq!(c.x, vec![1, 2]);
    assert_eq!(c.y, vec![3]);
}

#[test]
fn copy_leaves_the_source_usable() {
    let v = XY::new(1, 2);
    let w = v;
    assert_eq!(v, w);
}

#[test]
fn equal_values_hash_alike() {
    let mut seen = HashSet::new();
    assert!(seen.insert(XY::new(1, 2)));
    assert!(!seen.insert(XY::new(1, 2)));
    assert!(seen.insert(XY::new(2, 1)));
    assert_eq!(seen.len(), 2);
}

#[test]
fn debug_names_both_axes() {
    assert_eq!(format!("{:?}", XY::new(1, 2)), "XY { x: 1, y: 2 }");
    assert_eq!(format!("{:?}", Orientation::Vertical), "Vertical");
}

#[test]
fn orientation_values_compare() {
    assert_eq!(Orientation::Horizontal, Orientation::Horizontal);
    assert_ne!(Orientation::Horizontal, Orientation::Vertical);
}
