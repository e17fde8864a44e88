use ocaml_notebook::list::StatefulList;

fn three() -> StatefulList<&'static str> {
    StatefulList::with_items(vec!["Item0", "Item1", "Item2"])
}

#[test]
fn with_items_starts_unselected() {
    let sl = three();
    assert_eq!(sl.cursor, None);
    assert_eq!(sl.exit_point, None);
    assert_eq!(sl.list.len(), 3);
}

#[test]
fn next_wraps_around() {
    let mut sl = three();
    sl.cursor = Some(2);
    sl.next();
    assert_eq!(sl.cursor, Some(0));
}

#[test]
fn next_from_none_selects_zero() {
    let mut sl = three();
    sl.next();
    assert_eq!(sl.cursor, Some(0));
}

#[test]
fn prev_from_none_selects_zero() {
    let mut sl = three();
    sl.prev();
    assert_eq!(sl.cursor, Some(0));
}

#[test]
fn prev_wraps_around() {
    let mut sl = three();
    sl.cursor = Some(0);
    sl.prev();
    assert_eq!(sl.cursor, Some(2));
}

#[test]
fn next_then_prev_returns_to_start() {
    let mut sl = three();
    sl.cursor = Some(1);
    sl.next();
    sl.prev();
    assert_eq!(sl.cursor, Some(1));
    sl.prev();
    sl.next();
    assert_eq!(sl.cursor, Some(1));
    // From an unselected state both first converge to index 0.
    sl.cursor = None;
    sl.next();
    sl.prev();
    assert_eq!(sl.cursor, Some(2));
    sl.cursor = None;
    sl.prev();
    sl.next();
    assert_eq!(sl.cursor, Some(1));
}

#[test]
fn full_cycle_returns_to_zero() {
    let mut sl = three();
    sl.cursor = Some(0);
    for _ in 0..3 {
        sl.next();
    }
    assert_eq!(sl.cursor, Some(0));
}

#[test]
fn deselect_saves_cursor() {
    let mut sl = three();
    sl.cursor = Some(2);
    sl.deselect();
    assert_eq!(sl.cursor, None);
    assert_eq!(sl.exit_point, Some(2));
}

#[test]
fn deselect_is_idempotent() {
    let mut sl = three();
    sl.cursor = Some(2);
    sl.deselect();
    assert_eq!(sl.cursor, None);
    assert_eq!(sl.exit_point, Some(2));
    // A repeated call with nothing selected changes nothing: the exit point
    // is kept, not overwritten.
    sl.deselect();
    assert_eq!(sl.cursor, None);
    assert_eq!(sl.exit_point, Some(2));
}

#[test]
fn deselect_then_reselect_restores_cursor() {
    let mut sl = three();
    sl.cursor = Some(2);
    sl.deselect();
    sl.reselect();
    assert_eq!(sl.cursor, Some(2));
}

#[test]
fn reselect_clamps_stale_exit_point() {
    let mut sl = three();
    sl.exit_point = Some(10);
    sl.reselect();
    assert_eq!(sl.cursor, Some(0));
}

#[test]
fn reselect_without_exit_point_selects_zero() {
    let mut sl = three();
    sl.reselect();
    assert_eq!(sl.cursor, Some(0));
}

#[test]
fn reselect_next_enters_and_advances() {
    let mut sl = three();
    sl.cursor = Some(1);
    sl.deselect();
    sl.reselect_next();
    assert_eq!(sl.cursor, Some(2));
}

#[test]
fn reselect_prev_enters_and_steps_back() {
    let mut sl = three();
    sl.cursor = Some(1);
    sl.deselect();
    sl.reselect_prev();
    assert_eq!(sl.cursor, Some(0));
}

#[test]
fn empty_list_navigation_is_a_noop() {
    let mut sl: StatefulList<&'static str> = StatefulList::with_items(vec![]);
    sl.next();
    assert_eq!(sl.cursor, None);
    sl.prev();
    assert_eq!(sl.cursor, None);
    sl.reselect();
    assert_eq!(sl.cursor, None);
    sl.reselect_next();
    assert_eq!(sl.cursor, None);
    sl.reselect_prev();
    assert_eq!(sl.cursor, None);
}

#[test]
fn push_appends_without_moving_cursor() {
    let mut sl = three();
    sl.cursor = Some(1);
    sl.exit_point = Some(0);
    sl.push("Item3");
    assert_eq!(sl.cursor, Some(1));
    assert_eq!(sl.exit_point, Some(0));
    assert_eq!(sl.list.len(), 4);
    assert_eq!(sl.list[3], "Item3");
    assert_eq!(sl.list[0], "Item0");
}
