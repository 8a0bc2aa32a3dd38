use crabd::list::ListState;

fn three_rows() -> (Vec<i32>, Vec<usize>) {
    (vec![10, 20, 30], vec![3, 5, 3])
}

#[test]
fn fresh_list_selects_nothing() {
    let l: ListState<i32> = ListState::new();
    assert_eq!(l.selected, None);
    assert_eq!(l.items.len(), 0);
    assert_eq!(l.scroll_offset, 0);
}

#[test]
fn first_refresh_lands_on_row_zero() {
    let mut l: ListState<i32> = ListState::new();
    let (items, heights) = three_rows();
    l.replace_items(items, heights);
    assert_eq!(l.selected, Some(0));
    assert_eq!(l.scroll_offset, 0);
}

#[test]
fn selection_wraps_forward_from_last_row() {
    let mut l: ListState<i32> = ListState::new();
    let (items, heights) = three_rows();
    l.replace_items(items, heights);
    l.select(2);
    l.next();
    assert_eq!(l.selected, Some(0));
}

#[test]
fn selection_wraps_backward_from_row_zero() {
    let mut l: ListState<i32> = ListState::new();
    let (items, heights) = three_rows();
    l.replace_items(items, heights);
    l.previous();
    assert_eq!(l.selected, Some(2));
}

#[test]
fn next_then_previous_restores_selection() {
    let mut l: ListState<i32> = ListState::new();
    let (items, heights) = three_rows();
    l.replace_items(items, heights);
    l.select(1);
    l.next();
    l.previous();
    assert_eq!(l.selected, Some(1));
    l.previous();
    l.next();
    assert_eq!(l.selected, Some(1));
}

#[test]
fn navigation_is_a_no_op_on_an_empty_list() {
    let mut l: ListState<i32> = ListState::new();
    l.next();
    assert_eq!(l.selected, None);
    l.previous();
    assert_eq!(l.selected, None);
}

#[test]
fn select_accumulates_heights_above_the_row() {
    let mut l: ListState<i32> = ListState::new();
    let (items, heights) = three_rows();
    l.replace_items(items, heights);
    l.select(2);
    assert_eq!(l.scroll_offset, 8);
    l.select(1);
    assert_eq!(l.scroll_offset, 3);
    l.select(0);
    assert_eq!(l.scroll_offset, 0);
}

#[test]
fn replace_twice_with_same_input_is_idempotent() {
    let mut l: ListState<i32> = ListState::new();
    let (items, heights) = three_rows();
    l.replace_items(items, heights);
    l.select(2);
    let (items, heights) = three_rows();
    l.replace_items(items, heights);
    let selected_once = l.selected;
    let heights_once = l.row_heights.clone();
    let scroll_once = l.scroll_offset;
    let (items, heights) = three_rows();
    l.replace_items(items, heights);
    assert_eq!(l.selected, selected_once);
    assert_eq!(l.row_heights, heights_once);
    assert_eq!(l.scroll_offset, scroll_once);
}

#[test]
fn selection_clamps_when_the_new_collection_is_shorter() {
    let mut l: ListState<i32> = ListState::new();
    let (items, heights) = three_rows();
    l.replace_items(items, heights);
    l.select(2);
    l.replace_items(vec![1, 2], vec![4, 4]);
    assert_eq!(l.selected, Some(1));
    assert_eq!(l.scroll_offset, 4);
}

#[test]
fn selection_clears_when_the_new_collection_is_empty() {
    let mut l: ListState<i32> = ListState::new();
    let (items, heights) = three_rows();
    l.replace_items(items, heights);
    l.replace_items(Vec::new(), Vec::new());
    assert_eq!(l.selected, None);
    assert_eq!(l.scroll_offset, 0);
}

#[test]
fn scrollbar_geometry_sums_stored_heights() {
    let mut l: ListState<i32> = ListState::new();
    let (items, heights) = three_rows();
    l.replace_items(items, heights);
    l.select(2);
    let (content_length, position) = l.scrollbar_geometry();
    assert_eq!(content_length, 8);
    assert_eq!(position, 8);
}

#[test]
fn trailing_row_height_is_dropped_from_bookkeeping() {
    let mut l: ListState<i32> = ListState::new();
    let (items, heights) = three_rows();
    l.replace_items(items, heights);
    assert_eq!(l.row_heights, vec![3, 5]);
}
