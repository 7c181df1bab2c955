use atra::paging::{direction_after, finish_page, page_start, Direction, PageStart, Reposition};

#[test]
fn paging_on_forward_reads_on_until_the_end() {
    assert_eq!(page_start(Direction::Forward, Direction::Forward, false, None, None), PageStart::Continue);
    assert_eq!(page_start(Direction::Forward, Direction::Forward, true, None, None), PageStart::NothingLeft);
}

#[test]
fn turning_around_moves_to_the_selection_or_the_end() {
    let first = "a".to_string();
    let last = "k".to_string();
    let back = page_start(Direction::Forward, Direction::Reverse, false, Some(&first), Some(&last));
    assert_eq!(back, PageStart::Move(Reposition::From("a".to_string(), Direction::Reverse)));
    assert_eq!(direction_after(Direction::Forward, Direction::Reverse, &back), Direction::Reverse);
    assert_eq!(
        page_start(Direction::Forward, Direction::Reverse, true, Some(&first), Some(&last)),
        PageStart::Move(Reposition::End)
    );
    assert_eq!(
        page_start(Direction::Reverse, Direction::Forward, false, Some(&first), Some(&last)),
        PageStart::Move(Reposition::From("k".to_string(), Direction::Forward))
    );
    assert_eq!(
        page_start(Direction::Reverse, Direction::Forward, true, Some(&first), Some(&last)),
        PageStart::Move(Reposition::Start)
    );
    let stay = page_start(Direction::Reverse, Direction::Forward, false, None, None);
    assert_eq!(stay, PageStart::Continue);
    assert_eq!(direction_after(Direction::Reverse, Direction::Forward, &stay), Direction::Reverse);
    assert_eq!(page_start(Direction::Reverse, Direction::Reverse, true, None, None), PageStart::Continue);
}

#[test]
fn pages_read_backward_come_out_in_storage_order() {
    assert_eq!(finish_page(vec![3, 2, 1], 3, Direction::Reverse), (vec![1, 2, 3], false));
    assert_eq!(finish_page(vec![1, 2], 3, Direction::Forward), (vec![1, 2], true));
    assert_eq!(finish_page(Vec::<u8>::new(), 3, Direction::Reverse), (vec![], true));
}
