use daytally::SelectableList;

#[test]
fn cursor_saturates_and_never_wraps() {
    let mut list = SelectableList::from_items(vec![10, 20, 30]);
    assert_eq!(list.selected(), 0);
    list.select_prev();
    assert_eq!(list.selected(), 0);
    list.select_next();
    list.select_next();
    assert_eq!(list.selected(), 2);
    list.select_next();
    assert_eq!(list.selected(), 2);
    for _ in 0..10 {
        list.select_next();
        assert!(list.selected() <= 2);
        list.select_prev();
    }
    assert_eq!(list.selected(), 1);
}

#[test]
fn reversed_selection_flips_direction() {
    let mut list = SelectableList::from_items(vec![1, 2, 3]).with_reversed_selection(true);
    // with a reversed cursor, the raw position 0 maps to the last stored
    // item, so the selection starts on the most recent entry
    assert_eq!(list.selected(), 2);
    assert_eq!(list.selected_item(), Some(&3));
    list.select_prev();
    assert_eq!(list.selected(), 1);
    list.select_prev();
    assert_eq!(list.selected(), 0);
    assert_eq!(list.selected_item(), Some(&1));
    list.select_prev();
    assert_eq!(list.selected(), 0);
    list.select_next();
    assert_eq!(list.selected(), 1);
}

#[test]
fn empty_list_has_no_selection() {
    let mut list: SelectableList<u32> = SelectableList::new();
    assert_eq!(list.selected_item(), None);
    list.select_next();
    assert_eq!(list.selected_item(), None);
    assert_eq!(list.selected(), 0);
}

#[test]
fn select_clamps_to_last_index() {
    let mut list = SelectableList::from_items(vec![5, 6]);
    list.select(17);
    assert_eq!(list.selected(), 1);
    list.select(0);
    assert_eq!(list.selected(), 0);
}

#[test]
fn wrapping_select_next_cycles() {
    let mut list = SelectableList::from_items(vec![7, 8, 9]);
    list.wrapping_select_next();
    assert_eq!(list.selected(), 1);
    list.wrapping_select_next();
    assert_eq!(list.selected(), 2);
    list.wrapping_select_next();
    assert_eq!(list.selected(), 0);
}

#[test]
fn shrinking_the_items_clamps_the_cursor() {
    let mut list = SelectableList::from_items(vec![1, 2, 3, 4]);
    list.select(3);
    list.set_items(vec![9, 8]);
    // the stored cursor now lies past the end and is clamped on read
    assert_eq!(list.selected(), 1);
    assert_eq!(list.selected_item(), Some(&8));
}

#[test]
fn replacing_items_keeps_cursor() {
    let mut list = SelectableList::from_items(vec![1, 2, 3]);
    list.select(1);
    list.set_items(vec![4, 5, 6]);
    assert_eq!(list.selected(), 1);
    assert_eq!(list.selected_item(), Some(&5));
}
