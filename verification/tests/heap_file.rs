use rust_rdbms::heap_file::{page_span, PageSpan, PAGE_SIZE};
use rust_rdbms::page_id::PageId;

#[test]
fn page_size_is_4096() {
    assert_eq!(PAGE_SIZE, 4096);
}

#[test]
fn page_zero_starts_the_file() {
    assert_eq!(page_span(PageId(0)), Some(PageSpan { offset: 0, len: 4096 }));
}

#[test]
fn page_i_starts_at_4096_times_i() {
    assert_eq!(page_span(PageId(1)), Some(PageSpan { offset: 4096, len: 4096 }));
    assert_eq!(page_span(PageId(2)), Some(PageSpan { offset: 8192, len: 4096 }));
    assert_eq!(page_span(PageId(1000)), Some(PageSpan { offset: 4096000, len: 4096 }));
}

#[test]
fn neighbouring_pages_touch_and_do_not_overlap() {
    for id in [0u64, 1, 17, 1 << 30] {
        let here = page_span(PageId(id)).unwrap();
        let next = page_span(PageId(id + 1)).unwrap();
        assert_eq!(here.offset + here.len as u64, next.offset);
    }
}

#[test]
fn last_reachable_page() {
    let last = (1u64 << 52) - 2;
    assert_eq!(
        page_span(PageId(last)),
        Some(PageSpan { offset: 18446744073709543424, len: 4096 })
    );
}

#[test]
fn pages_past_the_reach_of_an_offset_have_no_span() {
    assert_eq!(page_span(PageId((1 << 52) - 1)), None);
    assert_eq!(page_span(PageId(1 << 52)), None);
    assert_eq!(page_span(PageId(u64::MAX - 1)), None);
}

#[test]
fn sentinel_has_no_span() {
    assert_eq!(page_span(PageId::invalid()), None);
}
