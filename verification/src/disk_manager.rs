//! The disk manager: hands out page identifiers and says where in the heap
//! file each page is read and written. It holds no file handle; its caller
//! performs the transfers that it describes.

use crate::heap_file::{
    addressable, holds_page, lemma_file_holds_counted_pages, page_count, page_span, PageSpan,
    PAGE_SIZE,
};
use crate::page_id::PageId;
use vstd::prelude::*;

verus! {

/// Why a page cannot be read.
#[derive(PartialEq, Eq, Structural, Clone, Copy, Debug)]
pub enum ReadError {
    /// The heap file ends before the last byte of the page.
    UnexpectedEof,
}

/// The allocation state of one heap file.
pub struct DiskManager {
    next_page_id: u64,
}

impl DiskManager {
    /// The identifier that the next allocation returns, as a specification
    /// value.
    pub closed spec fn spec_next_page_id(&self) -> u64 {
        self.next_page_id
    }

    /// The manager after one allocation.
    pub closed spec fn after_allocate(self) -> DiskManager {
        DiskManager { next_page_id: (self.next_page_id + 1) as u64 }
    }

    /// The manager after `n` consecutive allocations.
    pub open spec fn after_allocations(self, n: nat) -> DiskManager
        decreases n,
    {
        if n == 0 {
            self
        } else {
            self.after_allocations((n - 1) as nat).after_allocate()
        }
    }

    /// The identifier that allocation number `i` in a row returns, counting
    /// from zero: the one handed out after `i` earlier allocations.
    pub open spec fn nth_allocated(self, i: nat) -> PageId {
        PageId(self.after_allocations(i).next_page_id())
    }

    /// The manager of a heap file that is `heap_file_size` bytes long, as a
    /// specification value.
    pub closed spec fn spec_new(heap_file_size: u64) -> DiskManager {
        DiskManager { next_page_id: heap_file_size / (PAGE_SIZE as u64) }
    }

    /// Starts the manager of a heap file that is `heap_file_size` bytes long.
    /// The first identifier to hand out is the number of full pages in the
    /// file; a trailing partial page is ignored.
    #[verifier::when_used_as_spec(spec_new)]
    pub fn new(heap_file_size: u64) -> (manager: DiskManager)
        ensures
            manager == DiskManager::spec_new(heap_file_size),
            manager.next_page_id() == page_count(heap_file_size),
    {
        DiskManager { next_page_id: heap_file_size / (PAGE_SIZE as u64) }
    }

    /// The identifier that the next allocation returns.
    #[verifier::when_used_as_spec(spec_next_page_id)]
    pub fn next_page_id(&self) -> (next: u64)
        ensures
            next == self.next_page_id(),
    {
        self.next_page_id
    }

    /// Hands out the next page identifier and moves the counter past it.
    /// Nothing is written: the page has no bytes in the heap file until its
    /// first write.
    pub fn allocate_page(&mut self) -> (page_id: PageId)
        requires
            old(self).next_page_id() < u64::MAX,
        ensures
            page_id == PageId(old(self).next_page_id()),
            page_id.is_valid(),
            *final(self) == old(self).after_allocate(),
            final(self).next_page_id() == old(self).next_page_id() + 1,
    {
        let page_id = self.next_page_id;
        self.next_page_id += 1;
        PageId(page_id)
    }

    /// Says which bytes of the heap file a read of a page into `data` takes:
    /// exactly the bytes of that page. A page that no file offset can reach
    /// lies beyond the end of every heap file, so its read ends in
    /// `UnexpectedEof` without touching the file.
    pub fn read_page_data(&self, page_id: PageId, data: &[u8]) -> (span: Result<PageSpan, ReadError>)
        requires
            data@.len() == PAGE_SIZE,
        ensures
            span == (if addressable(page_id) {
                Ok::<PageSpan, ReadError>(PageSpan::of(page_id))
            } else {
                Err::<PageSpan, ReadError>(ReadError::UnexpectedEof)
            }),
    {
        match page_span(page_id) {
            Some(span) => Ok(span),
            None => Err(ReadError::UnexpectedEof),
        }
    }

    /// Says which bytes of the heap file a write of `data` as a page takes:
    /// exactly the bytes of that page.
    pub fn write_page_data(&self, page_id: PageId, data: &[u8]) -> (span: PageSpan)
        requires
            data@.len() == PAGE_SIZE,
            addressable(page_id),
        ensures
            span == PageSpan::of(page_id),
    {
        PageSpan { offset: page_id.to_u64() * (PAGE_SIZE as u64), len: data.len() }
    }
}

/// Consecutive allocations count upwards from the manager's counter: the
/// first returns the counter, each later one the successor of the one before.
/// So a manager of an empty heap file hands out 0, 1, 2, ..., and one of a
/// file with `k` full pages hands out `k`, `k + 1`, `k + 2`, ...
/// The sentinel is never among them, and no identifier comes twice.
pub proof fn lemma_allocations_count_up(manager: DiskManager, n: nat)
    requires
        manager.next_page_id() + n <= u64::MAX,
    ensures
        manager.after_allocations(n).next_page_id() == manager.next_page_id() + n,
        forall|i: nat|
            i < n ==> #[trigger] manager.nth_allocated(i) == PageId(
                (manager.next_page_id() + i) as u64,
            ),
        forall|i: nat| i < n ==> (#[trigger] manager.nth_allocated(i)).is_valid(),
        forall|i: nat, j: nat|
            i < j < n ==> (#[trigger] manager.nth_allocated(i)).0 < (
            #[trigger] manager.nth_allocated(j)).0,
    decreases n,
{
    if n > 0 {
        lemma_allocations_count_up(manager, (n - 1) as nat);
        assert forall|i: nat| i < n implies #[trigger] manager.nth_allocated(i) == PageId(
            (manager.next_page_id() + i) as u64,
        ) by {
            lemma_allocations_count_up(manager, i);
        }
    }
}

/// A manager started on a heap file with `k` full pages hands out `k`,
/// `k + 1`, `k + 2`, ... in that order; on an empty file, 0, 1, 2, ...
/// None of these pages lies in the file as it was found: the file holds the
/// pages below `k` and no others, so each page handed out has no bytes to read
/// until it is written.
pub proof fn lemma_allocations_after_start(heap_file_size: u64, n: nat)
    requires
        page_count(heap_file_size) + n <= u64::MAX,
    ensures
        DiskManager::new(heap_file_size).next_page_id() == page_count(heap_file_size),
        forall|i: nat|
            i < n ==> #[trigger] DiskManager::new(heap_file_size).nth_allocated(i) == PageId(
                (page_count(heap_file_size) + i) as u64,
            ),
        forall|i: nat|
            i < n ==> !holds_page(
                heap_file_size,
                #[trigger] DiskManager::new(heap_file_size).nth_allocated(i),
            ),
        forall|page_id: PageId|
            page_id.0 < page_count(heap_file_size) ==> #[trigger] holds_page(
                heap_file_size,
                page_id,
            ),
{
    let manager = DiskManager::new(heap_file_size);
    lemma_allocations_count_up(manager, n);
    assert forall|i: nat| i < n implies !holds_page(
        heap_file_size,
        #[trigger] manager.nth_allocated(i),
    ) by {
        lemma_file_holds_counted_pages(heap_file_size, manager.nth_allocated(i));
    }
    assert forall|page_id: PageId| page_id.0 < page_count(heap_file_size) implies #[trigger] holds_page(
        heap_file_size,
        page_id,
    ) by {
        lemma_file_holds_counted_pages(heap_file_size, page_id);
    }
}

} // verus!
