//! Boot stack reservation.
//!
//! Before any other component of the partition runs, the entry trampoline
//! needs stack memory.  The reservation is a fixed-size sequence of
//! 4096-byte pages, zero-initialised, sized at compile time through a const
//! generic.  It is created once, never resized, and its top-of-stack offset
//! is a pure function of the page count.

use vstd::prelude::*;

verus! {

/// Size in bytes of one page of the boot stack reservation.
pub const PAGE_SIZE: usize = 4096;

/// Number of pages reserved for the boot stack when no other size is
/// configured (160 KiB).
pub const DEFAULT_BOOT_STACK_PAGES: usize = 40;

/// One page of boot-stack memory, viewed as its sequence of bytes.
pub struct StackPage {
    bytes: Vec<u8>,
}

impl View for StackPage {
    type V = Seq<u8>;

    closed spec fn view(&self) -> Seq<u8> {
        self.bytes@
    }
}

impl StackPage {
    /// A page always spans exactly [`PAGE_SIZE`] bytes.
    pub open spec fn wf(&self) -> bool {
        self@.len() == PAGE_SIZE
    }

    /// Every byte of the page is zero.
    pub open spec fn is_zeroed(&self) -> bool {
        forall|i: int| 0 <= i < self@.len() ==> self@[i] == 0u8
    }

    /// Creates a new zero-initialised page.
    pub fn new() -> (r: Self)
        ensures
            r.wf(),
            r.is_zeroed(),
    {
        let mut bytes: Vec<u8> = Vec::new();
        let mut i: usize = 0;
        while i < PAGE_SIZE
            invariant
                i <= PAGE_SIZE,
                bytes@.len() == i,
                forall|j: int| 0 <= j < i ==> bytes@[j] == 0u8,
            decreases PAGE_SIZE - i,
        {
            bytes.push(0u8);
            i = i + 1;
        }
        StackPage { bytes }
    }

    /// Reads one byte of the page.
    pub fn byte_at(&self, offset: usize) -> (r: u8)
        requires
            self.wf(),
            offset < PAGE_SIZE,
        ensures
            r == self@[offset as int],
    {
        self.bytes[offset]
    }
}

/// A stack reservation for one execution context: `NUM_PAGES` zeroed pages,
/// viewed as the sequence of its pages' byte sequences.
///
/// The link-time placement of the reservation (a dedicated section, 4096-byte
/// alignment) is a property of the final image, not of the value itself, and
/// stays with the unverified build glue.
pub struct Stack<const NUM_PAGES: usize> {
    pages: Vec<StackPage>,
}

impl<const NUM_PAGES: usize> View for Stack<NUM_PAGES> {
    type V = Seq<Seq<u8>>;

    closed spec fn view(&self) -> Seq<Seq<u8>> {
        self.pages@.map(|p: int, page: StackPage| page@)
    }
}

impl<const NUM_PAGES: usize> Stack<NUM_PAGES> {
    /// The reservation holds exactly `NUM_PAGES` full pages.
    pub open spec fn wf(&self) -> bool {
        &&& self@.len() == NUM_PAGES
        &&& forall|p: int| 0 <= p < self@.len() ==> (#[trigger] self@[p]).len() == PAGE_SIZE
    }

    /// Every byte of every page is zero.
    pub open spec fn is_zeroed(&self) -> bool {
        forall|p: int, i: int|
            0 <= p < self@.len() && 0 <= i < self@[p].len() ==> #[trigger] self@[p][i] == 0u8
    }

    /// Creates a new zero-initialised stack reservation.
    pub fn new() -> (r: Self)
        ensures
            r.wf(),
            r.is_zeroed(),
    {
        let mut pages: Vec<StackPage> = Vec::new();
        let mut p: usize = 0;
        while p < NUM_PAGES
            invariant
                p <= NUM_PAGES,
                pages@.len() == p,
                forall|q: int| 0 <= q < p ==> (#[trigger] pages@[q]).wf(),
                forall|q: int| 0 <= q < p ==> (#[trigger] pages@[q]).is_zeroed(),
            decreases NUM_PAGES - p,
        {
            pages.push(StackPage::new());
            p = p + 1;
        }
        Stack { pages }
    }

    /// Number of pages in the reservation.
    pub fn page_count(&self) -> (r: usize)
        ensures
            r == self@.len(),
    {
        self.pages.len()
    }

    /// Reads one byte of the reservation.
    pub fn byte_at(&self, page: usize, offset: usize) -> (r: u8)
        requires
            self.wf(),
            page < self@.len(),
            offset < PAGE_SIZE,
        ensures
            r == self@[page as int][offset as int],
    {
        proof {
            assert(self@[page as int] == self.pages@[page as int]@);
        }
        self.pages[page].byte_at(offset)
    }

    /// Total size of the reservation in bytes; the top-of-stack address is
    /// the reservation's base address plus this offset.  Computed once at
    /// boot from the page count alone.
    pub fn top_offset(&self) -> (r: usize)
        requires
            self.wf(),
            NUM_PAGES * PAGE_SIZE <= usize::MAX,
        ensures
            r == NUM_PAGES * PAGE_SIZE,
    {
        NUM_PAGES * PAGE_SIZE
    }
}

impl<const NUM_PAGES: usize> Default for Stack<NUM_PAGES> {
    /// The default reservation is a freshly zeroed one.
    fn default() -> (r: Self)
        ensures
            r.wf(),
            r.is_zeroed(),
    {
        Self::new()
    }
}

} // verus!
