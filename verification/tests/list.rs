use tui_chan::list::ItemLIst;

fn list_at(len: usize, selected: Option<usize>) -> ItemLIst<usize> {
    let mut list = ItemLIst::new((0..len).collect());
    if let Some(selected) = selected {
        list.advance_by(1);
        for _ in 0..selected {
            list.advance_by(1);
        }
    }
    assert_eq!(list.selected(), selected);
    list
}

fn advanced(len: usize, selected: Option<usize>, steps: isize) -> Option<usize> {
    let mut list = list_at(len, selected);
    list.advance_by(steps);
    assert_eq!(list.len(), len);
    list.selected()
}

#[test]
fn new_list_has_no_selection() {
    let list = ItemLIst::new(vec!['a', 'b']);
    assert_eq!(list.selected(), None);
    assert_eq!(list.items(), &vec!['a', 'b']);
    assert_eq!(list.len(), 2);
}

#[test]
fn first_advance_selects_the_first_item() {
    for steps in [1, -1, 5, -5, 0, 100, -100, isize::MAX, isize::MIN] {
        assert_eq!(advanced(5, None, steps), Some(0));
    }
}

#[test]
fn advance_wraps_at_the_end() {
    assert_eq!(advanced(5, Some(4), 1), Some(0));
}

#[test]
fn advance_wraps_at_the_start() {
    assert_eq!(advanced(5, Some(0), -1), Some(4));
    assert_eq!(advanced(5, Some(0), -5), Some(4));
}

#[test]
fn advance_too_far_goes_to_the_start() {
    assert_eq!(advanced(5, Some(2), 5), Some(0));
    assert_eq!(advanced(5, Some(2), 3), Some(0));
    assert_eq!(advanced(5, Some(4), isize::MAX), Some(0));
}

#[test]
fn advance_within_the_list() {
    assert_eq!(advanced(5, Some(2), 1), Some(3));
    assert_eq!(advanced(5, Some(2), 2), Some(4));
    assert_eq!(advanced(5, Some(2), -1), Some(1));
    assert_eq!(advanced(5, Some(2), -2), Some(0));
    assert_eq!(advanced(5, Some(2), 0), Some(2));
    assert_eq!(advanced(10, Some(2), 5), Some(7));
    assert_eq!(advanced(10, Some(7), -5), Some(2));
}

#[test]
fn advance_up_past_the_start_stops_there() {
    assert_eq!(advanced(5, Some(2), -5), Some(0));
    assert_eq!(advanced(5, Some(1), isize::MIN), Some(0));
}

#[test]
fn advance_in_an_empty_list_selects_nothing() {
    assert_eq!(advanced(0, None, 1), None);
    assert_eq!(advanced(0, None, -1), None);
}

#[test]
fn advance_in_a_list_of_one() {
    assert_eq!(advanced(1, None, 1), Some(0));
    assert_eq!(advanced(1, Some(0), 1), Some(0));
    assert_eq!(advanced(1, Some(0), -1), Some(0));
}

#[test]
fn selection_stays_in_the_list() {
    for len in 1..7 {
        for start in 0..len {
            for steps in -8..9 {
                let selected = advanced(len, Some(start), steps).unwrap();
                assert!(selected < len);
            }
        }
    }
}

#[test]
fn unselect_takes_the_selection_away() {
    let mut list = list_at(3, Some(1));
    list.unselect();
    assert_eq!(list.selected(), None);
    assert_eq!(list.len(), 3);
}

#[test]
fn current_is_the_selected_or_the_first() {
    assert_eq!(*list_at(3, None).current(), 0);
    assert_eq!(*list_at(3, Some(2)).current(), 2);
}
