//! Page identifiers.

use vstd::endian::{endianness, Endian};
use vstd::prelude::*;

verus! {

/// The number that eight bytes hold when the first byte is the least
/// significant.
pub open spec fn little_endian_u64(bytes: Seq<u8>) -> int
    recommends
        bytes.len() == 8,
{
    bytes[0] + 0x100 * bytes[1] + 0x1_0000 * bytes[2] + 0x100_0000 * bytes[3] + 0x1_0000_0000
        * bytes[4] + 0x100_0000_0000 * bytes[5] + 0x1_0000_0000_0000 * bytes[6]
        + 0x100_0000_0000_0000 * bytes[7]
}

/// The number that eight bytes hold in the byte order of the running machine:
/// the first byte is the least significant on a little-endian machine and the
/// most significant on a big-endian one.
pub open spec fn native_u64(bytes: Seq<u8>) -> int
    recommends
        bytes.len() == 8,
{
    match endianness() {
        Endian::Little => little_endian_u64(bytes),
        Endian::Big => little_endian_u64(bytes.reverse()),
    }
}

/// Calls `u64::from_ne_bytes` of the standard library. Taken on trust: the
/// call reads the eight bytes as a number in the byte order of the running
/// machine.
#[verifier::external_body]
fn u64_from_ne_bytes(bytes: [u8; 8]) -> (value: u64)
    ensures
        value == native_u64(bytes@),
{
    u64::from_ne_bytes(bytes)
}

/// Names a page by its position in the heap file.
///
/// The largest 64-bit value is set aside as a sentinel that names no page.
#[derive(PartialEq, Eq, Structural, Clone, Copy, Debug)]
pub struct PageId(pub u64);

impl PageId {
    /// The sentinel, as a specification value.
    pub open spec fn spec_invalid() -> PageId {
        PageId(u64::MAX)
    }

    /// The sentinel: the identifier that names no page.
    #[verifier::when_used_as_spec(spec_invalid)]
    pub fn invalid() -> (page_id: PageId)
        ensures
            page_id == PageId(u64::MAX),
    {
        PageId(u64::MAX)
    }

    /// Whether this identifier names a page, that is, is not the sentinel.
    pub open spec fn is_valid(self) -> bool {
        self != PageId::invalid()
    }

    /// The identifier itself if it names a page, `None` for the sentinel.
    pub fn valid(self) -> (page_id: Option<PageId>)
        ensures
            page_id == (if self.is_valid() { Some(self) } else { None::<PageId> }),
    {
        if self == PageId::invalid() {
            None
        } else {
            Some(self)
        }
    }

    /// Decodes an identifier that was stored as eight raw bytes, for example
    /// as a pointer field inside another page. The bytes are read in the byte
    /// order of the running machine.
    pub fn from_bytes(bytes: &[u8]) -> (page_id: PageId)
        requires
            bytes@.len() == 8,
        ensures
            page_id.0 == native_u64(bytes@),
    {
        let raw: [u8; 8] = [
            bytes[0],
            bytes[1],
            bytes[2],
            bytes[3],
            bytes[4],
            bytes[5],
            bytes[6],
            bytes[7],
        ];
        assert(raw@ =~= bytes@);
        PageId(u64_from_ne_bytes(raw))
    }

    /// The ordinal of the page, for offset arithmetic.
    pub fn to_u64(self) -> (ordinal: u64)
        ensures
            ordinal == self.0,
    {
        self.0
    }
}

impl Default for PageId {
    /// The default identifier is the sentinel, never a usable page.
    fn default() -> (page_id: PageId)
        ensures
            page_id == PageId::invalid(),
    {
        PageId::invalid()
    }
}

impl From<Option<PageId>> for PageId {
    /// Folds an optional identifier into one value: `None` becomes the
    /// sentinel, `Some(id)` becomes `id`.
    fn from(page_id: Option<PageId>) -> (folded: PageId) {
        match page_id {
            Some(id) => id,
            None => PageId::invalid(),
        }
    }
}

impl vstd::std_specs::convert::FromSpecImpl<Option<PageId>> for PageId {
    open spec fn obeys_from_spec() -> bool {
        true
    }

    open spec fn from_spec(page_id: Option<PageId>) -> PageId {
        match page_id {
            Some(id) => id,
            None => PageId::invalid(),
        }
    }
}

/// Eight bytes hold a number that fits an identifier, whatever the byte
/// order.
pub proof fn lemma_native_u64_fits(bytes: Seq<u8>)
    requires
        bytes.len() == 8,
    ensures
        0 <= native_u64(bytes) <= u64::MAX,
{
    assert(bytes.reverse().len() == 8);
}

/// In either byte order, eight bytes of all ones decode to the sentinel and
/// eight zero bytes to page 0; no other eight bytes decode to the sentinel.
pub proof fn lemma_sentinel_is_all_ones(bytes: Seq<u8>)
    requires
        bytes.len() == 8,
    ensures
        native_u64(bytes) == u64::MAX <==> (forall|i: int| 0 <= i < 8 ==> bytes[i] == 0xff),
        (forall|i: int| 0 <= i < 8 ==> bytes[i] == 0) ==> native_u64(bytes) == 0,
{
    let reversed = bytes.reverse();
    assert forall|i: int| 0 <= i < 8 implies reversed[i] == bytes[7 - i] by {}
}

} // verus!
