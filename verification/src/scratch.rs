//! Scratch memory for one frame.
//!
//! Small requests are packed into chunks of one size, one behind the other. A request
//! that is larger than a chunk gets a chunk of its own. Everything is given back at once
//! by [`ScratchArena::clear`], which keeps the small chunks for the next frame.

use vstd::prelude::*;

pub mod laws;

verus! {

/// The size of a small chunk unless another one is asked for.
pub const DEFAULT_CHUNK_SIZE: usize = 64 * 1024;

/// What every region starts at a multiple of.
pub const ALIGN: usize = 16;

/// A chunk of an arena.
#[derive(Clone, Copy, Debug, PartialEq, Eq, Structural)]
pub enum Chunk {
    /// One of the small chunks.
    Small(usize),
    /// One that was made for a single request.
    Oversized(usize),
}

/// Some bytes of an arena.
#[derive(Clone, Copy, Debug, PartialEq, Eq, Structural)]
pub struct Region {
    pub chunk: Chunk,
    pub start: usize,
    pub len: usize,
}

/// What an arena is: the bytes of its chunks, the chunk that is being filled, and how
/// far.
#[verifier::ext_equal]
pub struct ArenaView {
    pub small: Seq<Seq<u8>>,
    pub oversized: Seq<Seq<u8>>,
    pub current: nat,
    pub cursor: nat,
    pub chunk_size: nat,
}

/// A size rounded up to a multiple of [`ALIGN`].
pub open spec fn aligned(size: nat) -> nat {
    (size + 15) / 16 * 16
}

/// A run of zeros.
pub open spec fn zeros(n: nat) -> Seq<u8> {
    Seq::new(n, |i: int| 0u8)
}

/// The lengths of some chunks together.
pub open spec fn total(chunks: Seq<Seq<u8>>) -> nat
    decreases chunks.len(),
{
    if chunks.len() == 0 {
        0
    } else {
        total(chunks.drop_last()) + chunks.last().len()
    }
}

impl ArenaView {
    /// An arena without chunks.
    pub open spec fn empty(chunk_size: nat) -> ArenaView {
        ArenaView {
            small: Seq::empty(),
            oversized: Seq::empty(),
            current: 0,
            cursor: 0,
            chunk_size,
        }
    }

    /// Small chunks have one size, and what is being filled is inside one of them;
    /// every other chunk is larger.
    pub open spec fn wf(self) -> bool {
        &&& forall|i: int| 0 <= i < self.small.len() ==> (#[trigger] self.small[i]).len() == self.chunk_size
        &&& forall|i: int|
            0 <= i < self.oversized.len() ==> (#[trigger] self.oversized[i]).len() > self.chunk_size
        &&& self.cursor % 16 == 0
        &&& if self.small.len() == 0 {
            self.current == 0 && self.cursor == 0
        } else {
            self.current < self.small.len() && self.cursor <= self.chunk_size
        }
    }

    /// Whether a request goes into the chunk that is being filled.
    pub open spec fn fits(self, size: nat) -> bool {
        self.small.len() > 0 && self.cursor + aligned(size) <= self.chunk_size
    }

    /// The next small chunk to be filled.
    pub open spec fn next(self) -> nat {
        if self.small.len() == 0 {
            0
        } else {
            self.current + 1
        }
    }

    /// Where a request goes.
    pub open spec fn place(self, size: nat) -> Region {
        if aligned(size) > self.chunk_size {
            Region {
                chunk: Chunk::Oversized(self.oversized.len() as usize),
                start: 0,
                len: size as usize,
            }
        } else if self.fits(size) {
            Region {
                chunk: Chunk::Small(self.current as usize),
                start: self.cursor as usize,
                len: size as usize,
            }
        } else {
            Region { chunk: Chunk::Small(self.next() as usize), start: 0, len: size as usize }
        }
    }

    /// The arena after a request: a large one adds a chunk, a small one moves on in the
    /// chunk that is being filled, or else to the next one, which is added when there is
    /// none left.
    pub open spec fn reserved(self, size: nat) -> ArenaView {
        if aligned(size) > self.chunk_size {
            ArenaView { oversized: self.oversized.push(zeros(aligned(size))), ..self }
        } else if self.fits(size) {
            ArenaView { cursor: self.cursor + aligned(size), ..self }
        } else {
            ArenaView {
                small: if self.next() < self.small.len() {
                    self.small
                } else {
                    self.small.push(zeros(self.chunk_size))
                },
                current: self.next(),
                cursor: aligned(size),
                ..self
            }
        }
    }

    /// Whether a region was handed out since the arena was last cleared.
    pub open spec fn live(self, r: Region) -> bool {
        match r.chunk {
            Chunk::Small(i) => i < self.small.len() && (if i < self.current {
                r.start + r.len <= self.chunk_size
            } else {
                i == self.current && r.start + r.len <= self.cursor
            }),
            Chunk::Oversized(i) => i < self.oversized.len() && r.start + r.len
                <= self.oversized[i as int].len(),
        }
    }

    /// The bytes of a region.
    pub open spec fn read(self, r: Region) -> Seq<u8> {
        match r.chunk {
            Chunk::Small(i) => self.small[i as int].subrange(r.start as int, r.start + r.len),
            Chunk::Oversized(i) => self.oversized[i as int].subrange(
                r.start as int,
                r.start + r.len,
            ),
        }
    }

    /// The arena with other bytes in a region.
    pub open spec fn written(self, r: Region, data: Seq<u8>) -> ArenaView {
        match r.chunk {
            Chunk::Small(i) => ArenaView {
                small: self.small.update(i as int, overlaid(self.small[i as int], r.start as nat, data)),
                ..self
            },
            Chunk::Oversized(i) => ArenaView {
                oversized: self.oversized.update(
                    i as int,
                    overlaid(self.oversized[i as int], r.start as nat, data),
                ),
                ..self
            },
        }
    }

    /// The arena after some bytes were stored.
    pub open spec fn stored(self, data: Seq<u8>) -> ArenaView {
        self.reserved(data.len()).written(self.place(data.len()), data)
    }

    /// The arena for the next frame.
    pub open spec fn cleared(self) -> ArenaView {
        ArenaView { oversized: Seq::empty(), current: 0, cursor: 0, ..self }
    }

    /// How many bytes all chunks have.
    pub open spec fn capacity(self) -> nat {
        total(self.small) + total(self.oversized)
    }

    /// How many bytes are in use: the chunks that were filled, the part of the chunk that
    /// is being filled, and all of the large ones.
    pub open spec fn used(self) -> nat {
        total(self.small.take(self.current as int)) + self.cursor + total(self.oversized)
    }
}

/// A run of bytes with other bytes from some place on.
pub open spec fn overlaid(bytes: Seq<u8>, start: nat, data: Seq<u8>) -> Seq<u8> {
    Seq::new(
        bytes.len(),
        |i: int|
            if start <= i < start + data.len() {
                data[i - start]
            } else {
                bytes[i]
            },
    )
}

/// Scratch memory for one frame.
pub struct ScratchArena {
    small_chunks: Vec<Vec<u8>>,
    oversized: Vec<Vec<u8>>,
    current_chunk_idx: usize,
    cursor: usize,
    chunk_size: usize,
}

/// The bytes of some chunks.
pub open spec fn contents(chunks: Seq<Vec<u8>>) -> Seq<Seq<u8>> {
    Seq::new(chunks.len(), |i: int| chunks[i]@)
}

impl View for ScratchArena {
    type V = ArenaView;

    closed spec fn view(&self) -> ArenaView {
        ArenaView {
            small: contents(self.small_chunks@),
            oversized: contents(self.oversized@),
            current: self.current_chunk_idx as nat,
            cursor: self.cursor as nat,
            chunk_size: self.chunk_size as nat,
        }
    }
}

fn align_up(n: usize) -> (r: usize)
    requires
        n + 15 <= usize::MAX,
    ensures
        r == aligned(n as nat),
        r % 16 == 0,
{
    (n + (ALIGN - 1)) / ALIGN * ALIGN
}

fn alloc_zeroed_chunk(size: usize) -> (r: Vec<u8>)
    ensures
        r@ == zeros(size as nat),
{
    let r: Vec<u8> = vec![0u8; size];
    assert(r@ =~= zeros(size as nat));
    r
}

fn overlay(chunk: &mut Vec<u8>, start: usize, data: &[u8])
    requires
        start + data@.len() <= old(chunk)@.len(),
    ensures
        final(chunk)@ == overlaid(old(chunk)@, start as nat, data@),
{
    let len: usize = chunk.len();
    let mut i: usize = 0;
    while i < data.len()
        invariant
            i <= data@.len(),
            start + data@.len() <= len,
            len == old(chunk)@.len(),
            chunk@.len() == old(chunk)@.len(),
            forall|j: int|
                0 <= j < chunk@.len() ==> chunk@[j] == (if start <= j < start + i {
                    data@[j - start]
                } else {
                    old(chunk)@[j]
                }),
        decreases data@.len() - i,
    {
        let k: usize = start + i;
        let b: u8 = data[i];
        chunk.set(k, b);
        i += 1;
    }
    assert(chunk@ =~= overlaid(old(chunk)@, start as nat, data@));
}

fn sum_lengths(chunks: &Vec<Vec<u8>>, n: usize) -> (r: u64)
    requires
        n <= chunks@.len(),
        total(contents(chunks@)) <= u64::MAX,
    ensures
        r == total(contents(chunks@).take(n as int)),
        r <= total(contents(chunks@)),
{
    let ghost all = contents(chunks@);
    let mut sum: u64 = 0;
    let mut i: usize = 0;
    assert(all.take(0) =~= Seq::<Seq<u8>>::empty());
    while i < n
        invariant
            i <= n <= chunks@.len(),
            all == contents(chunks@),
            total(all) <= u64::MAX,
            sum == total(all.take(i as int)),
        decreases n - i,
    {
        proof {
            assert(all.take(i as int + 1).drop_last() =~= all.take(i as int));
            assert(all.take(i as int + 1).last() == chunks@[i as int]@);
            laws::totals_grow(all, i as int + 1);
        }
        sum += chunks[i].len() as u64;
        i += 1;
    }
    proof {
        laws::totals_grow(all, n as int);
    }
    sum
}

impl ScratchArena {
    /// Whether the arena is in order.
    pub open spec fn wf(&self) -> bool {
        self@.wf()
    }

    /// An arena with chunks of the default size.
    pub fn new() -> (r: ScratchArena)
        ensures
            r@ == ArenaView::empty(DEFAULT_CHUNK_SIZE as nat),
            r.wf(),
    {
        ScratchArena::with_chunk_size(DEFAULT_CHUNK_SIZE)
    }

    /// An arena with chunks of some size.
    pub fn with_chunk_size(chunk_size: usize) -> (r: ScratchArena)
        ensures
            r@ == ArenaView::empty(chunk_size as nat),
            r.wf(),
    {
        let r: ScratchArena = ScratchArena {
            small_chunks: Vec::new(),
            oversized: Vec::new(),
            current_chunk_idx: 0,
            cursor: 0,
            chunk_size,
        };
        assert(r@ =~= ArenaView::empty(chunk_size as nat));
        r
    }

    fn reserve(&mut self, size: usize) -> (r: Region)
        requires
            old(self).wf(),
            size + 15 <= usize::MAX,
        ensures
            final(self)@ == old(self)@.reserved(size as nat),
            r == old(self)@.place(size as nat),
            final(self).wf(),
            final(self)@.live(r),
    {
        let need: usize = align_up(size);
        if need <= self.chunk_size && self.small_chunks.len() > 0 && need <= self.chunk_size
            - self.cursor {
            let r: Region = Region {
                chunk: Chunk::Small(self.current_chunk_idx),
                start: self.cursor,
                len: size,
            };
            self.cursor = self.cursor + need;
            return r;
        }
        self.reserve_slow(size, need)
    }

    fn reserve_slow(&mut self, size: usize, need: usize) -> (r: Region)
        requires
            old(self).wf(),
            need == aligned(size as nat),
            !(need <= old(self)@.chunk_size && old(self)@.fits(size as nat)),
        ensures
            final(self)@ == old(self)@.reserved(size as nat),
            r == old(self)@.place(size as nat),
            final(self).wf(),
            final(self)@.live(r),
    {
        let ghost before = self@;
        if need > self.chunk_size {
            let at: usize = self.oversized.len();
            self.oversized.push(alloc_zeroed_chunk(need));
            assert(self@ =~= before.reserved(size as nat));
            return Region { chunk: Chunk::Oversized(at), start: 0, len: size };
        }
        if self.small_chunks.len() == 0 {
            self.small_chunks.push(alloc_zeroed_chunk(self.chunk_size));
            self.current_chunk_idx = 0;
        } else {
            self.current_chunk_idx = self.current_chunk_idx + 1;
            if self.current_chunk_idx >= self.small_chunks.len() {
                self.small_chunks.push(alloc_zeroed_chunk(self.chunk_size));
            }
        }
        self.cursor = need;
        assert(self@ =~= before.reserved(size as nat));
        Region { chunk: Chunk::Small(self.current_chunk_idx), start: 0, len: size }
    }

    /// The bytes of a region.
    pub fn bytes(&self, r: Region) -> (b: &[u8])
        requires
            self.wf(),
            self@.live(r),
        ensures
            b@ == self@.read(r),
    {
        match r.chunk {
            Chunk::Small(i) => {
                let chunk: &[u8] = self.small_chunks[i].as_slice();
                assert(self@.small[i as int] == chunk@);
                let len: usize = chunk.len();
                assert(r.start + r.len <= len);
                vstd::slice::slice_subrange(chunk, r.start, r.start + r.len)
            },
            Chunk::Oversized(i) => {
                let chunk: &[u8] = self.oversized[i].as_slice();
                assert(self@.oversized[i as int] == chunk@);
                let len: usize = chunk.len();
                assert(r.start + r.len <= len);
                vstd::slice::slice_subrange(chunk, r.start, r.start + r.len)
            },
        }
    }

    /// Puts other bytes into a region.
    pub fn write(&mut self, r: Region, data: &[u8])
        requires
            old(self).wf(),
            old(self)@.live(r),
            data@.len() == r.len,
        ensures
            final(self)@ == old(self)@.written(r, data@),
            final(self).wf(),
    {
        let ghost before = self@;
        match r.chunk {
            Chunk::Small(i) => {
                assert(self@.small[i as int] == self.small_chunks@[i as int]@);
                overlay(&mut self.small_chunks[i], r.start, data);
            },
            Chunk::Oversized(i) => {
                assert(self@.oversized[i as int] == self.oversized@[i as int]@);
                overlay(&mut self.oversized[i], r.start, data);
            },
        }
        assert(self@ =~= before.written(r, data@));
    }

    /// Stores some bytes. They stay where they are until the arena is cleared.
    pub fn alloc_bytes(&mut self, data: &[u8]) -> (r: Region)
        requires
            old(self).wf(),
            data@.len() + 15 <= usize::MAX,
        ensures
            final(self)@ == old(self)@.stored(data@),
            r == old(self)@.place(data@.len()),
            final(self).wf(),
            final(self)@.live(r),
            final(self)@.read(r) == data@,
    {
        let r: Region = self.reserve(data.len());
        let ghost reserved = self@;
        self.write(r, data);
        proof {
            laws::written_bytes_read_back(reserved, r, data@);
        }
        r
    }

    /// Stores some bytes with zeros behind them, whatever was there in an earlier frame.
    pub fn alloc_padded(&mut self, data: &[u8], padding: usize) -> (r: Region)
        requires
            old(self).wf(),
            data@.len() + padding + 15 <= usize::MAX,
        ensures
            final(self)@ == old(self)@.stored(data@ + zeros(padding as nat)),
            r == old(self)@.place((data@.len() + padding) as nat),
            final(self).wf(),
            final(self)@.live(r),
            final(self)@.read(r) == data@ + zeros(padding as nat),
    {
        let mut padded: Vec<u8> = alloc_zeroed_chunk(data.len() + padding);
        overlay(&mut padded, 0, data);
        assert(padded@ =~= data@ + zeros(padding as nat));
        self.alloc_bytes(padded.as_slice())
    }

    /// Makes room for one value.
    pub fn alloc_uninit<T>(&mut self) -> (r: Region)
        requires
            old(self).wf(),
        ensures
            final(self)@ == old(self)@.reserved(vstd::layout::size_of::<T>()),
            r == old(self)@.place(vstd::layout::size_of::<T>()),
            r.len == vstd::layout::size_of::<T>(),
            final(self).wf(),
            final(self)@.live(r),
    {
        let size: usize = core::mem::size_of::<T>();
        vstd::layout::layout_for_type_is_valid::<T>();
        self.reserve(size)
    }

    /// Makes room for some values of one type.
    pub fn alloc_uninit_slice<T>(&mut self, count: usize) -> (r: Region)
        requires
            old(self).wf(),
            count * vstd::layout::size_of::<T>() + 15 <= usize::MAX,
        ensures
            final(self)@ == old(self)@.reserved((count * vstd::layout::size_of::<T>()) as nat),
            r == old(self)@.place((count * vstd::layout::size_of::<T>()) as nat),
            r.len == count * vstd::layout::size_of::<T>(),
            final(self).wf(),
            final(self)@.live(r),
    {
        let size: usize = core::mem::size_of::<T>();
        self.reserve(count * size)
    }

    /// Gives everything back. Small chunks are kept for the next frame.
    pub fn clear(&mut self)
        requires
            old(self).wf(),
        ensures
            final(self)@ == old(self)@.cleared(),
            final(self).wf(),
    {
        self.current_chunk_idx = 0;
        self.cursor = 0;
        self.oversized.clear();
        assert(self@ =~= old(self)@.cleared());
    }

    /// How many chunks there are.
    pub fn chunk_count(&self) -> (r: u32)
        requires
            self@.small.len() + self@.oversized.len() <= u32::MAX,
        ensures
            r == self@.small.len() + self@.oversized.len(),
    {
        (self.small_chunks.len() + self.oversized.len()) as u32
    }

    /// How many small chunks there are.
    pub fn small_chunk_count(&self) -> (r: u32)
        requires
            self@.small.len() <= u32::MAX,
        ensures
            r == self@.small.len(),
    {
        self.small_chunks.len() as u32
    }

    /// How many chunks were made for a single request.
    pub fn oversized_chunk_count(&self) -> (r: u32)
        requires
            self@.oversized.len() <= u32::MAX,
        ensures
            r == self@.oversized.len(),
    {
        self.oversized.len() as u32
    }

    /// How many bytes all chunks have.
    pub fn capacity_bytes(&self) -> (r: u64)
        requires
            self@.capacity() <= u64::MAX,
        ensures
            r == self@.capacity(),
            self.wf() ==> r >= self@.used() && r >= self@.small.len() * self@.chunk_size,
            self.wf() ==> (r == self@.small.len() * self@.chunk_size <==> self@.oversized.len()
                == 0),
    {
        proof {
            if self.wf() {
                laws::capacity_is_that_of_the_chunks(self@);
            }
            assert(contents(self.small_chunks@).take(self.small_chunks@.len() as int) =~= contents(
                self.small_chunks@,
            ));
            assert(contents(self.oversized@).take(self.oversized@.len() as int) =~= contents(
                self.oversized@,
            ));
        }
        sum_lengths(&self.small_chunks, self.small_chunks.len()) + sum_lengths(
            &self.oversized,
            self.oversized.len(),
        )
    }

    /// How many bytes are in use.
    pub fn bytes_used(&self) -> (r: u64)
        requires
            self.wf(),
            self@.capacity() <= u64::MAX,
        ensures
            r == self@.used(),
            r <= self@.capacity(),
    {
        proof {
            assert(contents(self.oversized@).take(self.oversized@.len() as int) =~= contents(
                self.oversized@,
            ));
            laws::use_is_within_capacity(self@);
        }
        let filled: u64 = if self.small_chunks.len() == 0 {
            assert(self@.small.take(0) =~= Seq::<Seq<u8>>::empty());
            0
        } else {
            sum_lengths(&self.small_chunks, self.current_chunk_idx)
        };
        filled + self.cursor as u64 + sum_lengths(&self.oversized, self.oversized.len())
    }
}

impl Default for ScratchArena {
    fn default() -> (r: ScratchArena)
        ensures
            r@ == ArenaView::empty(DEFAULT_CHUNK_SIZE as nat),
            r.wf(),
    {
        ScratchArena::new()
    }
}

} // verus!
