//! The layout of the heap file: a flat sequence of fixed-size pages with no
//! header, trailer or per-page metadata. Page `i` occupies the bytes
//! `[4096 * i, 4096 * (i + 1))`; page 0 is the first page.

use crate::page_id::PageId;
use vstd::prelude::*;

verus! {

/// The size of a page in bytes.
pub const PAGE_SIZE: usize = 4096;

/// The offset of the first byte of a page in the heap file.
pub open spec fn page_start(page_id: PageId) -> int {
    page_id.0 * PAGE_SIZE
}

/// The offset just past the last byte of a page in the heap file.
pub open spec fn page_end(page_id: PageId) -> int {
    page_start(page_id) + PAGE_SIZE
}

/// Whether the bytes of a page lie within what a 64-bit file offset can
/// reach. The sentinel never does.
pub open spec fn addressable(page_id: PageId) -> bool {
    page_end(page_id) <= u64::MAX
}

/// The number of full pages in a heap file of `file_size` bytes. A trailing
/// partial page does not count.
pub open spec fn page_count(file_size: u64) -> int {
    file_size as int / PAGE_SIZE as int
}

/// Whether a heap file of `file_size` bytes holds every byte of a page.
pub open spec fn holds_page(file_size: u64, page_id: PageId) -> bool {
    page_end(page_id) <= file_size
}

/// The bytes of the heap file that one page transfer touches: `len` bytes
/// from byte `offset` on.
#[derive(PartialEq, Eq, Structural, Clone, Copy, Debug)]
pub struct PageSpan {
    pub offset: u64,
    pub len: usize,
}

impl PageSpan {
    /// The span of a page: all of its bytes and no others.
    pub open spec fn of(page_id: PageId) -> PageSpan
        recommends
            addressable(page_id),
    {
        PageSpan { offset: page_start(page_id) as u64, len: PAGE_SIZE }
    }

    /// The offset just past the last byte of the span.
    pub open spec fn end(self) -> int {
        self.offset + self.len
    }
}

/// Where a page lies in the heap file, or `None` for a page that no 64-bit
/// file offset can reach.
pub fn page_span(page_id: PageId) -> (span: Option<PageSpan>)
    ensures
        span == (if addressable(page_id) {
            Some(PageSpan::of(page_id))
        } else {
            None::<PageSpan>
        }),
{
    let page_size: u64 = PAGE_SIZE as u64;
    match page_id.to_u64().checked_mul(page_size) {
        Some(offset) => match offset.checked_add(page_size) {
            Some(_) => Some(PageSpan { offset, len: PAGE_SIZE }),
            None => None,
        },
        None => None,
    }
}

/// A page is exactly `PAGE_SIZE` bytes, and the span of a page that can be
/// reached is its bytes: it starts at the page's first byte and ends just
/// past its last.
pub proof fn lemma_span_covers_page(page_id: PageId)
    requires
        addressable(page_id),
    ensures
        page_end(page_id) - page_start(page_id) == PAGE_SIZE,
        PageSpan::of(page_id).offset == page_start(page_id),
        PageSpan::of(page_id).end() == page_end(page_id),
{
}

/// Two different pages share no byte of the heap file: a transfer of one
/// page never touches another.
pub proof fn lemma_pages_do_not_overlap(first: PageId, second: PageId)
    requires
        first != second,
    ensures
        page_end(first) <= page_start(second) || page_end(second) <= page_start(first),
{
}

/// The sentinel names no bytes that a file offset can reach.
pub proof fn lemma_sentinel_is_not_addressable()
    ensures
        !addressable(PageId::invalid()),
{
}

/// A page that no file offset can reach lies in no heap file, however long.
pub proof fn lemma_unreachable_page_is_in_no_file(file_size: u64, page_id: PageId)
    requires
        !addressable(page_id),
    ensures
        !holds_page(file_size, page_id),
{
}

/// The full pages of a heap file are those with an ordinal below its page
/// count: every one of them is held in full, and no other page is.
pub proof fn lemma_file_holds_counted_pages(file_size: u64, page_id: PageId)
    ensures
        holds_page(file_size, page_id) <==> page_id.0 < page_count(file_size),
{
}

/// The page count comes from a truncating division: the counted pages fit in
/// the file, and what is left over is shorter than a page.
pub proof fn lemma_page_count_truncates(file_size: u64)
    ensures
        0 <= page_count(file_size),
        page_count(file_size) * PAGE_SIZE <= file_size,
        file_size < (page_count(file_size) + 1) * PAGE_SIZE,
        file_size % (PAGE_SIZE as u64) == 0 ==> page_count(file_size) * PAGE_SIZE == file_size,
{
}

} // verus!
