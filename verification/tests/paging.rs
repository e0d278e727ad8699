use auth_core::paging::{page_window, DEFAULT_LIMIT, DEFAULT_PAGE};

#[test]
fn open_request_lists_the_first_ten() {
    assert_eq!(page_window(None, None), (1, 10));
    assert_eq!((DEFAULT_PAGE, DEFAULT_LIMIT), (1, 10));
}

#[test]
fn asked_page_and_limit_are_kept() {
    assert_eq!(page_window(Some(3), Some(25)), (3, 25));
    assert_eq!(page_window(Some(7), None), (7, 10));
    assert_eq!(page_window(None, Some(50)), (1, 50));
    assert_eq!(page_window(Some(0), Some(0)), (0, 0));
    assert_eq!(page_window(None, Some(usize::MAX)), (1, usize::MAX));
}

#[test]
fn page_number_is_cut_to_32_bits() {
    assert_eq!(page_window(Some(u32::MAX as usize), None), (u32::MAX, 10));
    assert_eq!(page_window(Some(usize::MAX), None), (usize::MAX as u32, 10));
    let over = (u32::MAX as u64 + 6) as usize;
    assert_eq!(page_window(Some(over), None), (over as u32, 10));
}
