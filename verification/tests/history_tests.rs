use gram::history::HistoryPager;

#[test]
fn first_request_starts_at_newest() {
    let p = HistoryPager::new(10);
    assert_eq!(p.next_request(), Some((0, 10)));
}

#[test]
fn later_requests_ask_one_more_and_cap_at_100() {
    let mut p = HistoryPager::new(250);
    assert_eq!(p.next_request(), Some((0, 100)));
    let page: Vec<i64> = (1..=100).rev().collect();
    let kept = p.accept_page(&page);
    assert_eq!(kept.len(), 100);
    assert_eq!(p.next_request(), Some((1, 100)));
    let mut p = HistoryPager::new(5);
    let kept = p.accept_page(&vec![50, 49]);
    assert_eq!(kept, vec![0, 1]);
    assert_eq!(p.next_request(), Some((49, 4)));
}

#[test]
fn repeated_boundary_message_is_dropped() {
    let mut p = HistoryPager::new(4);
    assert_eq!(p.accept_page(&vec![10, 9]), vec![0, 1]);
    assert_eq!(p.accept_page(&vec![9, 8, 7, 6]), vec![1, 2]);
    assert_eq!(p.collected_ids(), vec![10, 9, 8, 7]);
    assert_eq!(p.next_request(), None);
}

#[test]
fn duplicates_within_a_page_are_kept_once() {
    let mut p = HistoryPager::new(10);
    assert_eq!(p.accept_page(&vec![5, 5, 4]), vec![0, 2]);
    assert_eq!(p.collected_ids(), vec![5, 4]);
}

#[test]
fn empty_page_ends_the_read() {
    let mut p = HistoryPager::new(10);
    assert_eq!(p.accept_page(&vec![3, 2]), vec![0, 1]);
    assert_eq!(p.accept_page(&vec![]), Vec::<usize>::new());
    assert_eq!(p.next_request(), None);
    assert_eq!(p.collected_ids(), vec![3, 2]);
}

#[test]
fn three_fruitless_pages_end_the_read() {
    let mut p = HistoryPager::new(10);
    assert_eq!(p.accept_page(&vec![3]), vec![0]);
    assert_eq!(p.accept_page(&vec![3]), Vec::<usize>::new());
    assert!(p.next_request().is_some());
    assert_eq!(p.accept_page(&vec![3]), Vec::<usize>::new());
    assert!(p.next_request().is_some());
    assert_eq!(p.accept_page(&vec![3]), Vec::<usize>::new());
    assert_eq!(p.next_request(), None);
}

#[test]
fn progress_resets_the_fruitless_count() {
    let mut p = HistoryPager::new(10);
    assert_eq!(p.accept_page(&vec![3]), vec![0]);
    p.accept_page(&vec![3]);
    p.accept_page(&vec![3]);
    assert_eq!(p.accept_page(&vec![3, 2]), vec![1]);
    p.accept_page(&vec![2]);
    p.accept_page(&vec![2]);
    assert!(p.next_request().is_some());
}

#[test]
fn stops_at_requested_count_mid_page() {
    let mut p = HistoryPager::new(2);
    assert_eq!(p.accept_page(&vec![9, 8, 7]), vec![0, 1]);
    assert_eq!(p.next_request(), None);
}
