//! The lowest layer of a relational storage engine: page identifiers and the
//! bookkeeping of a disk manager that keeps fixed-size pages in one heap file.
//!
//! The library holds what is decided and computed: which identifier is handed
//! out next, and which bytes of the heap file a page occupies. It opens no
//! file; the program around it performs the reads and writes that the disk
//! manager describes.

pub mod disk_manager;
pub mod heap_file;
pub mod page_id;

pub use disk_manager::{DiskManager, ReadError};
pub use heap_file::{PageSpan, PAGE_SIZE};
pub use page_id::PageId;
