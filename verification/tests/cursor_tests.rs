use ln_lib::PageCursor;

#[test]
fn open_page_within_known_bound_succeeds() {
    let mut c = PageCursor::new();
    c.last_page = Some(5);
    for p in 1..=5usize {
        assert_eq!(c.open_page(p), Some(p));
        assert_eq!(c.page, p);
    }
}

#[test]
fn open_page_outside_bound_fails_and_keeps_position() {
    let mut c = PageCursor::new();
    c.last_page = Some(5);
    assert_eq!(c.open_page(3), Some(3));
    assert_eq!(c.open_page(6), None);
    assert_eq!(c.page, 3);
    assert_eq!(c.open_page(0), None);
    assert_eq!(c.page, 3);
}

#[test]
fn unknown_bound_navigates_as_single_page() {
    let mut c = PageCursor::new();
    assert_eq!(c.open_page(1), Some(1));
    assert_eq!(c.open_page(2), None);
    assert_eq!(c.next_page(), None);
    assert_eq!(c.page, 1);
}

#[test]
fn next_at_bound_returns_none_and_cursor_unchanged() {
    let mut c = PageCursor::new();
    c.last_page = Some(4);
    assert_eq!(c.open_page(4), Some(4));
    assert_eq!(c.next_page(), None);
    assert_eq!(c.page, 4);
    assert_eq!(c.last_page, Some(4));
}

#[test]
fn next_and_prev_step_by_one() {
    let mut c = PageCursor::new();
    c.last_page = Some(3);
    assert_eq!(c.next_page(), Some(2));
    assert_eq!(c.next_page(), Some(3));
    assert_eq!(c.prev_page(), Some(2));
    assert_eq!(c.page, 2);
}

#[test]
fn prev_at_first_page_fails() {
    let mut c = PageCursor::new();
    c.last_page = Some(3);
    assert_eq!(c.prev_page(), None);
    assert_eq!(c.page, 1);
}

#[test]
fn has_page_after_tracks_bound() {
    let mut c = PageCursor::new();
    assert!(!c.has_page_after());
    c.last_page = Some(2);
    assert!(c.has_page_after());
    c.open_page(2);
    assert!(!c.has_page_after());
}
