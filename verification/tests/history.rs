use openpen::color::Rgba;
use openpen::geometry::Point;
use openpen::history::History;
use openpen::item::{CanvasItem, PolygonShape, StrokePath};

fn xy(x: i32, y: i32) -> Point {
    Point::new(x, y)
}

fn ink() -> Rgba {
    Rgba::new(10, 20, 30, 255)
}

/// A stroke of `n` points along the row `y = row`.
fn stroke(row: i32, n: i32) -> CanvasItem {
    let mut points = Vec::new();
    for i in 0..n {
        points.push(xy(10 * i, row));
    }
    CanvasItem::Stroke(StrokePath { points, rgba: ink(), thickness: 4 })
}

#[test]
fn new_history_is_empty() {
    let h = History::new();
    assert!(h.items().is_empty());
    assert!(h.redo_stack().is_empty());
}

#[test]
fn commit_appends_in_z_order() {
    let mut h = History::new();
    assert!(h.commit(stroke(0, 2)));
    assert!(h.commit(stroke(1, 3)));
    assert_eq!(h.items(), &vec![stroke(0, 2), stroke(1, 3)]);
    assert!(h.redo_stack().is_empty());
}

#[test]
fn undo_and_redo_on_empty_stacks_do_nothing() {
    let mut h = History::new();
    assert!(!h.undo());
    assert!(!h.redo());
    assert!(h.items().is_empty());
    assert!(h.redo_stack().is_empty());
    h.commit(stroke(0, 2));
    assert!(!h.redo());
    assert_eq!(h.items(), &vec![stroke(0, 2)]);
}

#[test]
fn commits_then_undos_leave_prefix_and_reversed_suffix() {
    let mut h = History::new();
    for row in 1..=5 {
        assert!(h.commit(stroke(row, 2)));
    }
    for _ in 0..3 {
        assert!(h.undo());
    }
    assert_eq!(h.items(), &vec![stroke(1, 2), stroke(2, 2)]);
    // Most recently committed first, most recently undone last.
    assert_eq!(h.redo_stack(), &vec![stroke(5, 2), stroke(4, 2), stroke(3, 2)]);
}

#[test]
fn undoing_everything_empties_the_items() {
    let mut h = History::new();
    h.commit(stroke(1, 2));
    h.commit(stroke(2, 2));
    assert!(h.undo());
    assert!(h.undo());
    assert!(!h.undo());
    assert!(h.items().is_empty());
    assert_eq!(h.redo_stack(), &vec![stroke(2, 2), stroke(1, 2)]);
}

#[test]
fn redo_after_undo_restores_both_stacks() {
    let mut h = History::new();
    h.commit(stroke(1, 2));
    h.commit(stroke(2, 3));
    h.commit(stroke(3, 4));
    h.undo();
    let items_before = h.items().clone();
    let redo_before = h.redo_stack().clone();
    assert!(h.undo());
    assert!(h.redo());
    assert_eq!(h.items(), &items_before);
    assert_eq!(h.redo_stack(), &redo_before);
}

#[test]
fn redo_restores_the_most_recently_undone_first() {
    let mut h = History::new();
    h.commit(stroke(1, 2));
    h.commit(stroke(2, 2));
    h.commit(stroke(3, 2));
    h.undo();
    h.undo();
    assert!(h.redo());
    assert_eq!(h.items(), &vec![stroke(1, 2), stroke(2, 2)]);
    assert_eq!(h.redo_stack(), &vec![stroke(3, 2)]);
    assert!(h.redo());
    assert_eq!(h.items(), &vec![stroke(1, 2), stroke(2, 2), stroke(3, 2)]);
    assert!(h.redo_stack().is_empty());
}

#[test]
fn undo_then_redo_is_not_identity_without_items_but_with_redo() {
    // Nothing committed, one item to redo: undo does nothing, redo brings the item back.
    let mut h = History::new();
    h.commit(stroke(1, 2));
    h.undo();
    assert!(h.items().is_empty());
    assert!(!h.undo());
    assert!(h.redo());
    assert_eq!(h.items(), &vec![stroke(1, 2)]);
    assert!(h.redo_stack().is_empty());
}

#[test]
fn commit_after_undo_clears_redo() {
    let mut h = History::new();
    h.commit(stroke(1, 2));
    h.commit(stroke(2, 2));
    h.commit(stroke(3, 2));
    h.undo();
    h.undo();
    assert_eq!(h.redo_stack().len(), 2);
    assert!(h.commit(stroke(4, 2)));
    assert!(h.redo_stack().is_empty());
    assert_eq!(h.items(), &vec![stroke(1, 2), stroke(4, 2)]);
    assert!(!h.redo());
    assert_eq!(h.items(), &vec![stroke(1, 2), stroke(4, 2)]);
}

#[test]
fn scenario_two_strokes_undo_then_third_stroke() {
    let a = stroke(0, 3);
    let b = stroke(1, 2);
    let c = stroke(2, 4);
    let mut h = History::new();
    h.commit(a.clone());
    h.commit(b.clone());
    h.undo();
    assert_eq!(h.items(), &vec![a.clone()]);
    assert_eq!(h.redo_stack(), &vec![b.clone()]);
    h.commit(c.clone());
    assert_eq!(h.items(), &vec![a, c]);
    assert!(h.redo_stack().is_empty());
    // B is gone for good.
    assert!(!h.redo());
}

#[test]
fn invalid_items_are_discarded_and_change_nothing() {
    let mut h = History::new();
    h.commit(stroke(1, 2));
    h.commit(stroke(2, 2));
    h.undo();
    let one_point = stroke(9, 1);
    let no_point = stroke(9, 0);
    let two_vertices = CanvasItem::Polygon(PolygonShape { points: vec![xy(0, 0), xy(1, 1)], rgba: ink(), thickness: 4 });
    let no_thickness = CanvasItem::Stroke(StrokePath { points: vec![xy(0, 0), xy(1, 1)], rgba: ink(), thickness: 0 });
    assert!(!h.commit(one_point));
    assert!(!h.commit(no_point));
    assert!(!h.commit(two_vertices));
    assert!(!h.commit(no_thickness));
    assert_eq!(h.items(), &vec![stroke(1, 2)]);
    // A discarded commit does not touch the redo stack either.
    assert_eq!(h.redo_stack(), &vec![stroke(2, 2)]);
}

#[test]
fn clear_empties_both_stacks() {
    let mut h = History::new();
    h.commit(stroke(1, 2));
    h.commit(stroke(2, 2));
    h.undo();
    h.clear();
    assert!(h.items().is_empty());
    assert!(h.redo_stack().is_empty());
    assert!(!h.undo());
    assert!(!h.redo());
}

#[test]
fn erase_removes_every_item_with_a_point_in_reach() {
    let mut h = History::new();
    // Rows 0, 100, 200, 300; each stroke has points at x = 0 and x = 10.
    h.commit(stroke(0, 2));
    h.commit(stroke(100, 2));
    h.commit(stroke(200, 2));
    h.commit(CanvasItem::text(xy(10, 105), "label".to_string(), ink()));
    // Radius 5 around (10, 100): hits the second stroke and the label, both exactly or nearly.
    let removed = h.erase(xy(10, 100), 5);
    assert_eq!(removed, 2);
    assert_eq!(h.items(), &vec![stroke(0, 2), stroke(200, 2)]);
}

#[test]
fn erase_is_inclusive_at_the_radius() {
    let mut h = History::new();
    h.commit(CanvasItem::text(xy(3, 4), "rim".to_string(), ink()));
    h.commit(CanvasItem::text(xy(3, 5), "outside".to_string(), ink()));
    assert_eq!(h.erase(xy(0, 0), 5), 1);
    assert_eq!(h.items(), &vec![CanvasItem::text(xy(3, 5), "outside".to_string(), ink())]);
}

#[test]
fn erase_that_hits_nothing_changes_nothing() {
    let mut h = History::new();
    h.commit(stroke(0, 2));
    h.commit(stroke(100, 2));
    assert_eq!(h.erase(xy(1000, 1000), 80), 0);
    assert_eq!(h.items(), &vec![stroke(0, 2), stroke(100, 2)]);
    let mut empty = History::new();
    assert_eq!(empty.erase(xy(0, 0), 80), 0);
    assert!(empty.items().is_empty());
}

#[test]
fn erase_does_not_depend_on_item_order() {
    let near_a = stroke(0, 2);
    let far = stroke(500, 2);
    let near_b = CanvasItem::text(xy(2, 2), "x".to_string(), ink());
    let mut one = History::new();
    one.commit(near_a.clone());
    one.commit(far.clone());
    one.commit(near_b.clone());
    let mut other = History::new();
    other.commit(far.clone());
    other.commit(near_b);
    other.commit(near_a);
    assert_eq!(one.erase(xy(0, 0), 8), 2);
    assert_eq!(other.erase(xy(0, 0), 8), 2);
    assert_eq!(one.items(), &vec![far.clone()]);
    assert_eq!(other.items(), &vec![far]);
}

#[test]
fn erase_keeps_the_order_of_the_survivors_and_the_redo_stack() {
    let mut h = History::new();
    h.commit(stroke(0, 2));
    h.commit(stroke(100, 2));
    h.commit(stroke(200, 2));
    h.commit(stroke(300, 2));
    h.commit(stroke(100, 3));
    h.undo();
    assert_eq!(h.erase(xy(0, 100), 0), 1);
    assert_eq!(h.items(), &vec![stroke(0, 2), stroke(200, 2), stroke(300, 2)]);
    assert_eq!(h.redo_stack(), &vec![stroke(100, 3)]);
    // Erased items do not come back through undo or redo.
    assert!(h.redo());
    assert_eq!(h.items(), &vec![stroke(0, 2), stroke(200, 2), stroke(300, 2), stroke(100, 3)]);
    assert!(h.undo());
    assert!(h.undo());
    assert_eq!(h.items(), &vec![stroke(0, 2), stroke(200, 2)]);
}

#[test]
fn erase_removes_duplicates_alike() {
    let mut h = History::new();
    h.commit(stroke(0, 2));
    h.commit(stroke(0, 2));
    h.commit(stroke(50, 2));
    assert_eq!(h.erase(xy(0, 0), 1), 2);
    assert_eq!(h.items(), &vec![stroke(50, 2)]);
}

#[test]
fn a_second_eraser_sample_at_the_same_place_removes_nothing_more() {
    let mut h = History::new();
    h.commit(stroke(0, 2));
    h.commit(stroke(100, 2));
    assert_eq!(h.erase(xy(0, 0), 8), 1);
    assert_eq!(h.erase(xy(0, 0), 8), 0);
    assert_eq!(h.items(), &vec![stroke(100, 2)]);
}

#[test]
fn eraser_samples_commute() {
    let fill = |h: &mut History| {
        h.commit(stroke(0, 2));
        h.commit(stroke(50, 2));
        h.commit(stroke(100, 2));
        h.commit(stroke(150, 2));
    };
    let mut one = History::new();
    fill(&mut one);
    one.erase(xy(0, 50), 10);
    one.erase(xy(0, 140), 10);
    let mut other = History::new();
    fill(&mut other);
    other.erase(xy(0, 140), 10);
    other.erase(xy(0, 50), 10);
    assert_eq!(one.items(), other.items());
    assert_eq!(one.items(), &vec![stroke(0, 2), stroke(100, 2)]);
}

#[test]
fn undo_and_redo_keep_the_timeline() {
    let timeline = |h: &History| {
        let mut all = h.items().clone();
        all.extend(h.redo_stack().iter().rev().cloned());
        all
    };
    let mut h = History::new();
    for row in 1..=4 {
        h.commit(stroke(row, 2));
    }
    let full = timeline(&h);
    assert_eq!(full, vec![stroke(1, 2), stroke(2, 2), stroke(3, 2), stroke(4, 2)]);
    h.undo();
    assert_eq!(timeline(&h), full);
    h.undo();
    h.undo();
    assert_eq!(timeline(&h), full);
    h.redo();
    assert_eq!(timeline(&h), full);
    h.redo();
    h.redo();
    h.redo();
    assert_eq!(timeline(&h), full);
    assert_eq!(h.items(), &full);
}
