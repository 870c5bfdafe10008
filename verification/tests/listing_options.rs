use invito::schema::FilterOptions;
use invito::schema::PageWindow;
use invito::schema::MAX_WINDOW;

#[test]
fn window_of_page_two_with_limit_five_starts_after_five_rows() {
    let options = FilterOptions { page: Some(2), limit: Some(5) };
    assert_eq!(options.window(), Some(PageWindow { limit: 5, offset: 5 }));
}

#[test]
fn window_defaults_to_the_first_page_of_ten_rows() {
    assert_eq!(FilterOptions::default(), FilterOptions { page: None, limit: None });
    assert_eq!(FilterOptions::default().window(), Some(PageWindow { limit: 10, offset: 0 }));
    let no_page = FilterOptions { page: None, limit: Some(7) };
    let page_one = FilterOptions { page: Some(1), limit: Some(7) };
    assert_eq!(no_page.window(), page_one.window());
    assert_eq!(no_page.window(), Some(PageWindow { limit: 7, offset: 0 }));
    let no_limit = FilterOptions { page: Some(4), limit: None };
    assert_eq!(no_limit.window(), Some(PageWindow { limit: 10, offset: 30 }));
}

#[test]
fn window_refuses_page_zero() {
    assert_eq!(FilterOptions { page: Some(0), limit: Some(5) }.window(), None);
    assert_eq!(FilterOptions { page: Some(0), limit: None }.window(), None);
}

#[test]
fn window_accepts_a_limit_of_zero() {
    let options = FilterOptions { page: Some(9), limit: Some(0) };
    assert_eq!(options.window(), Some(PageWindow { limit: 0, offset: 0 }));
}

#[test]
fn window_stays_within_the_largest_offset() {
    let edge = FilterOptions { page: Some(MAX_WINDOW + 1), limit: Some(1) };
    assert_eq!(edge.window(), Some(PageWindow { limit: 1, offset: MAX_WINDOW }));
    let beyond = FilterOptions { page: Some(MAX_WINDOW + 2), limit: Some(1) };
    assert_eq!(beyond.window(), None);
    let wide = FilterOptions { page: Some(1), limit: Some(MAX_WINDOW + 1) };
    assert_eq!(wide.window(), None);
    let widest = FilterOptions { page: Some(1), limit: Some(MAX_WINDOW) };
    assert_eq!(widest.window(), Some(PageWindow { limit: MAX_WINDOW, offset: 0 }));
    let huge = FilterOptions { page: Some(usize::MAX), limit: Some(usize::MAX) };
    assert_eq!(huge.window(), None);
}
