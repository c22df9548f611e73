//! Statically sized memory regions: the page that backs the isolated
//! double-fault stack, and the fixed pool the early heap hands out.

use vstd::prelude::*;

verus! {

/// Bytes in one page.
pub const PAGE_SIZE: usize = 4096;

/// Pages in the early heap pool.
pub const NUM_HEAP_PAGES: usize = 1000;

/// One page of memory.
pub struct Page {
    bytes: Vec<u8>,
}

impl Page {
    /// A page holds exactly `PAGE_SIZE` bytes.
    pub open spec fn wf(&self) -> bool {
        self@.len() == PAGE_SIZE
    }

    /// The page's bytes.
    pub closed spec fn view(&self) -> Seq<u8> {
        self.bytes@
    }

    /// A zeroed page.
    pub fn new() -> (r: Page)
        ensures
            r.wf(),
            forall|i: int| 0 <= i < PAGE_SIZE ==> r@[i] == 0,
    {
        let mut bytes: Vec<u8> = Vec::new();
        let mut i: usize = 0;
        while i < PAGE_SIZE
            invariant
                i <= PAGE_SIZE,
                bytes@.len() == i,
                forall|k: int| 0 <= k < i ==> bytes@[k] == 0,
            decreases PAGE_SIZE - i,
        {
            bytes.push(0);
            i += 1;
        }
        Page { bytes }
    }

    /// The byte at offset `i`.
    pub fn byte(&self, i: usize) -> (r: u8)
        requires
            self.wf(),
            i < PAGE_SIZE,
        ensures
            r == self@[i as int],
    {
        self.bytes[i]
    }
}

/// The fixed pool of pages the early heap is initialized over.
pub struct Heap {
    pages: Vec<Page>,
}

impl Heap {
    /// The pool holds exactly `NUM_HEAP_PAGES` full pages.
    pub open spec fn wf(&self) -> bool {
        self.spec_pages().len() == NUM_HEAP_PAGES && forall|i: int|
            0 <= i < NUM_HEAP_PAGES ==> (#[trigger] self.spec_pages()[i]).wf()
    }

    /// The pool's pages.
    pub closed spec fn spec_pages(&self) -> Seq<Page> {
        self.pages@
    }

    /// A pool of zeroed pages.
    pub fn new() -> (r: Heap)
        ensures
            r.wf(),
            forall|i: int, j: int|
                0 <= i < NUM_HEAP_PAGES && 0 <= j < PAGE_SIZE ==> (#[trigger] r.spec_pages()[i]@[j])
                    == 0,
    {
        let mut pages: Vec<Page> = Vec::new();
        let mut i: usize = 0;
        while i < NUM_HEAP_PAGES
            invariant
                i <= NUM_HEAP_PAGES,
                pages@.len() == i,
                forall|k: int| 0 <= k < i ==> (#[trigger] pages@[k]).wf(),
                forall|k: int, j: int|
                    0 <= k < i && 0 <= j < PAGE_SIZE ==> (#[trigger] pages@[k]@[j]) == 0,
            decreases NUM_HEAP_PAGES - i,
        {
            pages.push(Page::new());
            i += 1;
        }
        Heap { pages }
    }

    /// Number of pages in the pool.
    pub fn num_pages(&self) -> (r: usize)
        ensures
            r == self.spec_pages().len(),
    {
        self.pages.len()
    }
}

} // verus!
