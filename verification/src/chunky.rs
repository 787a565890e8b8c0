//! A chunked arena builder, separate from the header parser: it grows a
//! current chunk until a reservation does not fit, then retires the chunk and
//! starts a fresh one at least twice as large. Retired chunks are kept alive
//! for the builder's whole lifetime, so a placement handed out once is never
//! reused. The builder reserves zero-initialised byte ranges and returns each
//! reservation's placement: the chunk it landed in and the byte offset inside
//! that chunk.

use vstd::prelude::*;

verus! {

/// Where a reservation landed: the index of the chunk (retired chunks count
/// up from zero; the current chunk has the next index) and the byte offset
/// of the reservation's first byte inside it.
#[derive(Clone, Copy, Debug, PartialEq, Eq, Hash)]
pub struct Slot {
    pub chunk: usize,
    pub offset: usize,
}

/// A chunked arena builder.
pub struct Builder {
    head: Vec<u8>,
    chunks: Vec<Vec<u8>>,
    head_cap: usize,
}

/// The capacity of the chunk that replaces one of capacity `cap` when a
/// reservation of `n` bytes does not fit: the old capacity doubled (clamped
/// to the machine's limit), or `n` itself when even that is too small.
pub open spec fn spec_grown(cap: int, n: int) -> int {
    let doubled = if 2 * cap > usize::MAX { usize::MAX as int } else { 2 * cap };
    if n > doubled {
        n
    } else {
        doubled
    }
}

impl Builder {
    /// The index of the chunk that the next reservation lands in, space
    /// permitting.
    pub closed spec fn chunk_index(&self) -> int {
        self.chunks@.len() as int
    }

    /// Bytes already reserved in the current chunk.
    pub closed spec fn used(&self) -> int {
        self.head@.len() as int
    }

    /// The current chunk's capacity.
    pub closed spec fn capacity(&self) -> int {
        self.head_cap as int
    }

    /// A fresh builder with the default initial capacity of 1024 bytes.
    pub fn new() -> (r: Builder)
        ensures
            r.chunk_index() == 0,
            r.used() == 0,
            r.capacity() == 1024,
    {
        Self::with_capacity(1024)
    }

    /// A fresh builder whose first chunk has capacity `cap`.
    pub fn with_capacity(cap: usize) -> (r: Builder)
        ensures
            r.chunk_index() == 0,
            r.used() == 0,
            r.capacity() == cap,
    {
        Builder { head: Vec::new(), chunks: Vec::new(), head_cap: cap }
    }

    /// Makes room for `n` more bytes: when the current chunk cannot hold
    /// them, retires it and starts a grown, empty one; otherwise leaves the
    /// builder untouched.
    fn ensure(&mut self, n: usize)
        ensures
            final(self).used() + n <= final(self).capacity(),
            old(self).used() + n <= old(self).capacity() ==> *final(self) == *old(self),
            old(self).used() + n > old(self).capacity() ==> {
                &&& final(self).chunk_index() == old(self).chunk_index() + 1
                &&& final(self).used() == 0
                &&& final(self).capacity() == spec_grown(old(self).capacity(), n as int)
            },
    {
        if n > self.head_cap || self.head.len() > self.head_cap - n {
            let doubled: usize = if self.head_cap > usize::MAX / 2 {
                usize::MAX
            } else {
                self.head_cap * 2
            };
            let new_cap: usize = if n > doubled {
                n
            } else {
                doubled
            };
            let mut retired: Vec<u8> = Vec::new();
            core::mem::swap(&mut retired, &mut self.head);
            self.chunks.push(retired);
            self.head_cap = new_cap;
        }
    }

    /// Reserves `n` zero-initialised bytes and returns their placement. The
    /// reservation lands in the current chunk right after the bytes already
    /// used, or at the start of a fresh chunk when it does not fit; the
    /// placement of anything reserved earlier never changes.
    pub fn reserve(&mut self, n: usize) -> (r: Slot)
        ensures
            r.chunk == final(self).chunk_index(),
            r.offset + n == final(self).used(),
            final(self).used() <= final(self).capacity(),
            old(self).used() + n <= old(self).capacity() ==> {
                &&& r.chunk == old(self).chunk_index()
                &&& r.offset == old(self).used()
                &&& final(self).capacity() == old(self).capacity()
            },
            old(self).used() + n > old(self).capacity() ==> {
                &&& r.chunk == old(self).chunk_index() + 1
                &&& r.offset == 0
                &&& final(self).capacity() == spec_grown(old(self).capacity(), n as int)
            },
    {
        self.ensure(n);
        let offset = self.head.len();
        let ghost chunks0 = self.chunks@;
        let ghost cap0 = self.head_cap;
        let mut i: usize = 0;
        while i < n
            invariant
                i <= n,
                self.head@.len() == offset + i,
                offset + n <= self.head_cap,
                self.chunks@ == chunks0,
                self.head_cap == cap0,
            decreases n - i,
        {
            self.head.push(0);
            i = i + 1;
        }
        Slot { chunk: self.chunks.len(), offset }
    }
}

} // verus!
