//! Rows of constants as bytes.

use super::sections::Section;
use crate::scratch::{Region, ScratchArena};
use vstd::prelude::*;

verus! {

/// Byte `k` of a word, the lowest first.
pub open spec fn byte_of(w: u32, k: int) -> u8 {
    if k == 0 {
        (w % 0x100) as u8
    } else if k == 1 {
        (w / 0x100 % 0x100) as u8
    } else if k == 2 {
        (w / 0x1_0000 % 0x100) as u8
    } else {
        (w / 0x100_0000) as u8
    }
}

/// The first `n` bytes of some rows, one row behind the other.
pub open spec fn row_bytes(s: Section, n: nat) -> Seq<u8> {
    Seq::new(n, |i: int| byte_of(s.row(i / 16)[i / 4 % 4], i % 4))
}

impl Section {
    /// All bytes of the rows.
    pub open spec fn bytes_spec(self) -> Seq<u8> {
        row_bytes(self, (16 * self.rows@.len()) as nat)
    }

    /// The bytes of the rows, each word with its lowest byte first.
    pub fn to_bytes(&self) -> (r: Vec<u8>)
        requires
            16 * self.rows@.len() <= usize::MAX,
        ensures
            r@ == self.bytes_spec(),
    {
        let mut out: Vec<u8> = Vec::new();
        let n: usize = self.rows.len();
        let mut i: usize = 0;
        while i < n
            invariant
                n == self.rows@.len(),
                i <= n,
                out@ == row_bytes(*self, (16 * i) as nat),
            decreases n - i,
        {
            let row: [u32; 4] = self.rows[i];
            let mut c: usize = 0;
            while c < 4
                invariant
                    n == self.rows@.len(),
                    i < n,
                    c <= 4,
                    row@ == self.row(i as int),
                    out@ == row_bytes(*self, (16 * i + 4 * c) as nat),
                decreases 4 - c,
            {
                let w: u32 = row[c];
                out.push((w % 0x100) as u8);
                out.push((w / 0x100 % 0x100) as u8);
                out.push((w / 0x1_0000 % 0x100) as u8);
                out.push((w / 0x100_0000) as u8);
                c += 1;
                assert(out@ =~= row_bytes(*self, (16 * i + 4 * c) as nat));
            }
            i += 1;
        }
        out
    }

    /// Stores the rows in scratch memory.
    pub fn store(&self, scratch: &mut ScratchArena) -> (r: Region)
        requires
            old(scratch).wf(),
            16 * self.rows@.len() + 15 <= usize::MAX,
        ensures
            final(scratch)@ == old(scratch)@.stored(self.bytes_spec()),
            r == old(scratch)@.place((16 * self.rows@.len()) as nat),
            final(scratch).wf(),
            final(scratch)@.live(r),
            final(scratch)@.read(r) == self.bytes_spec(),
    {
        let bytes: Vec<u8> = self.to_bytes();
        scratch.alloc_bytes(bytes.as_slice())
    }
}

} // verus!
