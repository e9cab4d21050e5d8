//! Triangle fans as triangle lists.
//!
//! Triangle `i` of a fan has the fan's vertices `0`, `i + 1` and `i + 2`.

use crate::metal::IndexType;
use vstd::prelude::*;

verus! {

/// The indices of a triangle list for a fan of given vertices, one after the other.
pub open spec fn list_index(fan: Seq<u32>, n: int) -> u32 {
    if n % 3 == 0 {
        fan[0]
    } else if n % 3 == 1 {
        fan[n / 3 + 1]
    } else {
        fan[n / 3 + 2]
    }
}

/// Index `n` in a run of two-byte indices, the low byte first.
pub open spec fn index16(bytes: Seq<u8>, n: int) -> int {
    bytes[2 * n] + bytes[2 * n + 1] * 0x100
}

/// Index `n` in a run of four-byte indices, the lowest byte first.
pub open spec fn index32(bytes: Seq<u8>, n: int) -> int {
    bytes[4 * n] + bytes[4 * n + 1] * 0x100 + bytes[4 * n + 2] * 0x1_0000 + bytes[4 * n + 3]
        * 0x100_0000
}

/// How many bytes an index takes.
pub open spec fn stride(t: IndexType) -> int {
    match t {
        IndexType::UInt16 => 2,
        IndexType::UInt32 => 4,
    }
}

/// Index `n` in a run of indices.
pub open spec fn index_at(bytes: Seq<u8>, n: int, t: IndexType) -> int {
    match t {
        IndexType::UInt16 => index16(bytes, n),
        IndexType::UInt32 => index32(bytes, n),
    }
}

/// How many whole triangles of a list of `count` fit into `len` bytes.
pub open spec fn triangles_that_fit(count: int, len: int, t: IndexType) -> int {
    if count < len / (3 * stride(t)) {
        count
    } else {
        len / (3 * stride(t))
    }
}

enum FanSource<'a> {
    Sequential { start_vertex: u32 },
    Indexed { src: &'a [u8], index_size: usize, base_vertex: i32 },
}

/// Index `k` of a run, if the run has it and its indices are two or four bytes wide.
pub open spec fn source_index(src: Seq<u8>, index_size: int, k: int) -> Option<int> {
    if (k + 1) * index_size > src.len() {
        None
    } else if index_size == 2 {
        Some(index16(src, k))
    } else if index_size == 4 {
        Some(index32(src, k))
    } else {
        None
    }
}

/// Vertex `k` of a fan over a run of indices, `base_vertex` added, if it is a vertex number.
pub open spec fn indexed_vertex(src: Seq<u8>, index_size: int, base_vertex: int, k: int) -> Option<
    int,
> {
    match source_index(src, index_size, k) {
        Some(i) => if 0 <= i + base_vertex <= u32::MAX {
            Some(i + base_vertex)
        } else {
            None
        },
        None => None,
    }
}

/// Vertex `k` of a fan whose vertices follow each other, if it is a vertex number.
pub open spec fn sequential_vertex(start_vertex: int, k: int) -> Option<int> {
    if start_vertex + k <= u32::MAX {
        Some(start_vertex + k)
    } else {
        None
    }
}

impl<'a> FanSource<'a> {
    spec fn vertex_spec(self, k: int) -> Option<int> {
        match self {
            FanSource::Sequential { start_vertex } => sequential_vertex(start_vertex as int, k),
            FanSource::Indexed { src, index_size, base_vertex } => indexed_vertex(
                src@,
                index_size as int,
                base_vertex as int,
                k,
            ),
        }
    }

    fn vertex(&self, k: u32) -> (r: Option<u32>)
        ensures
            match r {
                Some(v) => self.vertex_spec(k as int) == Some(v as int),
                None => self.vertex_spec(k as int) is None,
            },
    {
        match *self {
            FanSource::Sequential { start_vertex } => start_vertex.checked_add(k),
            FanSource::Indexed { src, index_size, base_vertex } => {
                let index: Option<u32> = Self::read_index(src, index_size, k);
                match index {
                    Some(i) => {
                        let v: i64 = i as i64 + base_vertex as i64;
                        if 0 <= v && v <= 0xffff_ffff {
                            Some(v as u32)
                        } else {
                            None
                        }
                    },
                    None => None,
                }
            },
        }
    }

    fn read_index(src: &[u8], index_size: usize, k: u32) -> (r: Option<u32>)
        ensures
            match r {
                Some(v) => source_index(src@, index_size as int, k as int) == Some(v as int),
                None => source_index(src@, index_size as int, k as int) is None,
            },
    {
        let n: u64 = src.len() as u64;
        if index_size == 2 {
            if (k as u64 + 1) * 2 > n {
                return None;
            }
            let at: usize = k as usize * 2;
            Some(src[at] as u32 + src[at + 1] as u32 * 0x100)
        } else if index_size == 4 {
            if (k as u64 + 1) * 4 > n {
                return None;
            }
            let at: usize = k as usize * 4;
            Some(
                src[at] as u32 + src[at + 1] as u32 * 0x100 + src[at + 2] as u32 * 0x1_0000
                    + src[at + 3] as u32 * 0x100_0000,
            )
        } else {
            None
        }
    }
}

/// A fan whose vertices are known, ready to be written as a triangle list.
pub struct FanRewrite<'a> {
    source: FanSource<'a>,
    primitive_count: u32,
    index_count: u32,
    index_type: IndexType,
    min_vertex: u32,
    max_vertex: u32,
}

impl<'a> View for FanRewrite<'a> {
    type V = Seq<u32>;

    /// The vertices of the fan.
    closed spec fn view(&self) -> Seq<u32> {
        Seq::new(
            (self.primitive_count + 2) as nat,
            |k: int| self.source.vertex_spec(k)->0 as u32,
        )
    }
}

/// Whether a number is the least of a run.
pub open spec fn is_least(s: Seq<u32>, m: u32) -> bool {
    s.contains(m) && forall|i: int| 0 <= i < s.len() ==> m <= #[trigger] s[i]
}

/// Whether a number is the greatest of a run.
pub open spec fn is_greatest(s: Seq<u32>, m: u32) -> bool {
    s.contains(m) && forall|i: int| 0 <= i < s.len() ==> #[trigger] s[i] <= m
}

/// The index width for a fan: two bytes unless a vertex needs more.
pub open spec fn narrowest(fan: Seq<u32>) -> IndexType {
    if exists|i: int| 0 <= i < fan.len() && #[trigger] fan[i] > 0xffff {
        IndexType::UInt32
    } else {
        IndexType::UInt16
    }
}

impl<'a> FanRewrite<'a> {
    #[verifier::type_invariant]
    spec fn wf(self) -> bool {
        &&& self.primitive_count * 3 <= u32::MAX
        &&& self.index_count == self.primitive_count * 3
        &&& forall|k: int|
            0 <= k < self.primitive_count + 2 ==> (#[trigger] self.source.vertex_spec(k)) is Some
        &&& is_least(self@, self.min_vertex)
        &&& is_greatest(self@, self.max_vertex)
        &&& self.index_type == narrowest(self@)
    }

    /// The vertices of a fan can be resolved when each is a vertex number and the list
    /// has a length that can be counted.
    pub open spec fn resolves(vertex: spec_fn(int) -> Option<int>, primitive_count: int) -> bool {
        &&& primitive_count * 3 <= u32::MAX
        &&& forall|k: int| 0 <= k < primitive_count + 2 ==> (#[trigger] vertex(k)) is Some
    }

    /// A fan of vertices that follow each other from `start_vertex` on; none when the
    /// last of them, or the length of the list, cannot be numbered.
    pub fn sequential(start_vertex: u32, primitive_count: u32) -> (r: Option<FanRewrite<'a>>)
        ensures
            r is Some <==> start_vertex + primitive_count + 1 <= u32::MAX && primitive_count * 3
                <= u32::MAX,
            r matches Some(f) ==> f@ == Seq::new(
                (primitive_count + 2) as nat,
                |k: int| (start_vertex + k) as u32,
            ),
    {
        let source: FanSource<'a> = FanSource::Sequential { start_vertex };
        let r: Option<FanRewrite<'a>> = Self::new(source, primitive_count);
        proof {
            if start_vertex + primitive_count + 1 > u32::MAX && primitive_count * 3 <= u32::MAX {
                assert(source.vertex_spec(primitive_count + 1) is None);
            }
            if r is Some {
                assert(r->0@ =~= Seq::new(
                    (primitive_count + 2) as nat,
                    |k: int| (start_vertex + k) as u32,
                ));
            }
        }
        r
    }

    /// A fan over a run of indices of two or four bytes, `base_vertex` added to each;
    /// none when the run is too short, its indices are of another width, or a vertex
    /// or the length of the list cannot be numbered.
    pub fn indexed(
        src: &'a [u8],
        index_size: usize,
        base_vertex: i32,
        primitive_count: u32,
    ) -> (r: Option<FanRewrite<'a>>)
        ensures
            r is Some <==> Self::resolves(
                |k: int| indexed_vertex(src@, index_size as int, base_vertex as int, k),
                primitive_count as int,
            ),
            r matches Some(f) ==> f@ == Seq::new(
                (primitive_count + 2) as nat,
                |k: int|
                    indexed_vertex(src@, index_size as int, base_vertex as int, k)->0 as u32,
            ),
    {
        let source: FanSource<'a> = FanSource::Indexed { src, index_size, base_vertex };
        let r: Option<FanRewrite<'a>> = Self::new(source, primitive_count);
        proof {
            let f = |k: int| indexed_vertex(src@, index_size as int, base_vertex as int, k);
            assert(forall|k: int| #[trigger] source.vertex_spec(k) == f(k));
            if r is Some {
                assert(r->0@ =~= Seq::new(
                    (primitive_count + 2) as nat,
                    |k: int|
                        indexed_vertex(src@, index_size as int, base_vertex as int, k)->0 as u32,
                ));
                assert forall|k: int| 0 <= k < primitive_count + 2 implies (#[trigger] f(k)) is Some by {
                    assert(source.vertex_spec(k) is Some);
                }
            } else if primitive_count * 3 <= u32::MAX {
                let k = choose|k: int|
                    0 <= k < primitive_count + 2 && (#[trigger] source.vertex_spec(k)) is None;
                assert(f(k) is None);
            }
        }
        r
    }

    fn new(source: FanSource<'a>, primitive_count: u32) -> (r: Option<FanRewrite<'a>>)
        ensures
            r is Some <==> primitive_count * 3 <= u32::MAX && forall|k: int|
                0 <= k < primitive_count + 2 ==> (#[trigger] source.vertex_spec(k)) is Some,
            r matches Some(f) ==> f.source == source && f.primitive_count == primitive_count,
    {
        let index_count: u32 = match primitive_count.checked_mul(3) {
            Some(n) => n,
            None => {
                return None;
            },
        };
        let count: u32 = primitive_count + 2;
        let ghost fan = Seq::new(count as nat, |k: int| source.vertex_spec(k)->0 as u32);
        let first: u32 = match source.vertex(0) {
            Some(v) => v,
            None => {
                return None;
            },
        };
        let mut min_vertex: u32 = first;
        let mut max_vertex: u32 = first;
        let mut k: u32 = 1;
        assert(fan[0] == first);
        while k < count
            invariant
                1 <= k <= count,
                count == primitive_count + 2,
                fan == Seq::new(count as nat, |k: int| source.vertex_spec(k)->0 as u32),
                forall|j: int| 0 <= j < k ==> (#[trigger] source.vertex_spec(j)) is Some,
                exists|j: int| 0 <= j < k && #[trigger] fan[j] == min_vertex,
                exists|j: int| 0 <= j < k && #[trigger] fan[j] == max_vertex,
                forall|j: int| 0 <= j < k ==> min_vertex <= #[trigger] fan[j] <= max_vertex,
            decreases count - k,
        {
            let vertex: u32 = match source.vertex(k) {
                Some(v) => v,
                None => {
                    return None;
                },
            };
            assert(fan[k as int] == vertex);
            if vertex < min_vertex {
                min_vertex = vertex;
            }
            if vertex > max_vertex {
                max_vertex = vertex;
            }
            k += 1;
        }
        let index_type: IndexType = if max_vertex > 0xffff {
            IndexType::UInt32
        } else {
            IndexType::UInt16
        };
        Some(
            FanRewrite { source, primitive_count, index_count, index_type, min_vertex, max_vertex },
        )
    }

    /// How many indices the list has: three for each vertex beyond the second.
    pub fn index_count(&self) -> (r: u32)
        ensures
            r == 3 * (self@.len() - 2),
    {
        proof {
            use_type_invariant(self);
        }
        self.index_count
    }

    /// How wide the indices of the list are.
    pub fn index_type(&self) -> (r: IndexType)
        ensures
            r == narrowest(self@),
    {
        proof {
            use_type_invariant(self);
        }
        self.index_type
    }

    /// The least vertex of the fan.
    pub fn min_vertex(&self) -> (r: u32)
        ensures
            is_least(self@, r),
    {
        proof {
            use_type_invariant(self);
        }
        self.min_vertex
    }

    /// The greatest vertex of the fan.
    pub fn max_vertex(&self) -> (r: u32)
        ensures
            is_greatest(self@, r),
    {
        proof {
            use_type_invariant(self);
        }
        self.max_vertex
    }

    /// How many bytes the list takes.
    pub fn byte_len(&self) -> (r: usize)
        requires
            3 * (self@.len() - 2) * stride(narrowest(self@)) <= usize::MAX,
        ensures
            r == 3 * (self@.len() - 2) * stride(narrowest(self@)),
    {
        proof {
            use_type_invariant(self);
        }
        match self.index_type {
            IndexType::UInt16 => self.index_count as usize * 2,
            IndexType::UInt32 => self.index_count as usize * 4,
        }
    }

    /// Writes as many whole triangles of the list as fit, and nothing behind them.
    pub fn write(&self, out: &mut [u8])
        ensures
            final(out)@.len() == old(out)@.len(),
            ({
                let t = narrowest(self@);
                let n = triangles_that_fit(self@.len() - 2, old(out)@.len() as int, t);
                &&& forall|i: int|
                    0 <= i < 3 * n ==> #[trigger] index_at(final(out)@, i, t) == list_index(
                        self@,
                        i,
                    )
                &&& forall|j: int|
                    3 * n * stride(t) <= j < old(out)@.len() ==> final(out)@[j] == old(out)@[j]
            }),
    {
        proof {
            use_type_invariant(self);
        }
        match self.index_type {
            IndexType::UInt16 => self.write16(out),
            IndexType::UInt32 => self.write32(out),
        }
    }

    fn vertex_at(&self, k: u32) -> (r: u32)
        requires
            k < self@.len(),
        ensures
            r == self@[k as int],
    {
        proof {
            use_type_invariant(self);
        }
        match self.source.vertex(k) {
            Some(v) => v,
            None => 0,
        }
    }

    fn list_vertex(&self, i: u32) -> (r: u32)
        requires
            i < 3 * (self@.len() - 2),
        ensures
            r == list_index(self@, i as int),
    {
        if i % 3 == 0 {
            self.vertex_at(0)
        } else if i % 3 == 1 {
            self.vertex_at(i / 3 + 1)
        } else {
            self.vertex_at(i / 3 + 2)
        }
    }

    fn write16(&self, out: &mut [u8])
        requires
            narrowest(self@) == IndexType::UInt16,
        ensures
            final(out)@.len() == old(out)@.len(),
            ({
                let n = triangles_that_fit(
                    self@.len() - 2,
                    old(out)@.len() as int,
                    IndexType::UInt16,
                );
                &&& forall|i: int|
                    0 <= i < 3 * n ==> #[trigger] index16(final(out)@, i) == list_index(self@, i)
                &&& forall|j: int| 6 * n <= j < old(out)@.len() ==> final(out)@[j] == old(out)@[j]
            }),
    {
        proof {
            use_type_invariant(self);
        }
        let len: usize = out.len();
        let room: usize = len / 6;
        let triangles: u32 = if (self.primitive_count as u64) < room as u64 {
            self.primitive_count
        } else {
            room as u32
        };
        let n: u32 = triangles * 3;
        let mut i: u32 = 0;
        while i < n
            invariant
                i <= n,
                n == 3 * triangles,
                n <= 3 * (self@.len() - 2),
                6 * triangles <= out@.len(),
                out@.len() == old(out)@.len(),
                len == out@.len(),
                narrowest(self@) == IndexType::UInt16,
                forall|m: int| 0 <= m < i ==> #[trigger] index16(out@, m) == list_index(self@, m),
                forall|j: int| 2 * i <= j < out@.len() ==> out@[j] == old(out)@[j],
            decreases n - i,
        {
            let v: u32 = self.list_vertex(i);
            assert(v <= 0xffff) by {
                let k = if i % 3 == 0 {
                    0int
                } else if i % 3 == 1 {
                    i / 3 + 1
                } else {
                    i / 3 + 2
                };
                assert(self@[k] == v);
            }
            let at: usize = i as usize * 2;
            let ghost before = out@;
            out[at] = (v % 0x100) as u8;
            out[at + 1] = (v / 0x100) as u8;
            assert forall|m: int| 0 <= m < i implies #[trigger] index16(out@, m) == list_index(
                self@,
                m,
            ) by {
                assert(index16(before, m) == list_index(self@, m));
            }
            assert(index16(out@, i as int) == v);
            i += 1;
        }
    }

    fn write32(&self, out: &mut [u8])
        ensures
            final(out)@.len() == old(out)@.len(),
            ({
                let n = triangles_that_fit(
                    self@.len() - 2,
                    old(out)@.len() as int,
                    IndexType::UInt32,
                );
                &&& forall|i: int|
                    0 <= i < 3 * n ==> #[trigger] index32(final(out)@, i) == list_index(self@, i)
                &&& forall|j: int| 12 * n <= j < old(out)@.len() ==> final(out)@[j] == old(out)@[j]
            }),
    {
        proof {
            use_type_invariant(self);
        }
        let len: usize = out.len();
        let room: usize = len / 12;
        let triangles: u32 = if (self.primitive_count as u64) < room as u64 {
            self.primitive_count
        } else {
            room as u32
        };
        let n: u32 = triangles * 3;
        let mut i: u32 = 0;
        while i < n
            invariant
                i <= n,
                n == 3 * triangles,
                n <= 3 * (self@.len() - 2),
                12 * triangles <= out@.len(),
                out@.len() == old(out)@.len(),
                len == out@.len(),
                forall|m: int| 0 <= m < i ==> #[trigger] index32(out@, m) == list_index(self@, m),
                forall|j: int| 4 * i <= j < out@.len() ==> out@[j] == old(out)@[j],
            decreases n - i,
        {
            let v: u32 = self.list_vertex(i);
            let at: usize = i as usize * 4;
            let ghost before = out@;
            out[at] = (v % 0x100) as u8;
            out[at + 1] = (v / 0x100 % 0x100) as u8;
            out[at + 2] = (v / 0x1_0000 % 0x100) as u8;
            out[at + 3] = (v / 0x100_0000) as u8;
            assert forall|m: int| 0 <= m < i implies #[trigger] index32(out@, m) == list_index(
                self@,
                m,
            ) by {
                assert(index32(before, m) == list_index(self@, m));
            }
            assert(index32(out@, i as int) == v);
            i += 1;
        }
    }
}

/// The most triangles whose indices fit the shared pattern.
pub const FAN_PATTERN_MAX_TRIANGLES: u32 = 65534;

/// How many bytes the shared pattern takes for a number of triangles.
pub fn fan_pattern_bytes(primitive_count: u32) -> (r: usize)
    requires
        primitive_count * 6 <= usize::MAX,
    ensures
        r == primitive_count * 6,
{
    primitive_count as usize * 6
}

/// Index `n` of the triangle list for a fan of the vertices zero, one, two and so on.
pub open spec fn pattern_index(n: int) -> int {
    if n % 3 == 0 {
        0
    } else if n % 3 == 1 {
        n / 3 + 1
    } else {
        n / 3 + 2
    }
}

/// An index that is as large as two bytes allow when it is larger.
pub open spec fn clamped16(n: int) -> int {
    if n <= 0xffff {
        n
    } else {
        0xffff
    }
}

/// Writes as many whole triangles of the shared pattern as were asked for and fit,
/// and nothing behind them.
pub fn fill_fan_pattern_u16(out: &mut [u8], primitive_count: u32)
    ensures
        final(out)@.len() == old(out)@.len(),
        ({
            let n = triangles_that_fit(
                primitive_count as int,
                old(out)@.len() as int,
                IndexType::UInt16,
            );
            &&& forall|i: int|
                0 <= i < 3 * n ==> #[trigger] index16(final(out)@, i) == clamped16(
                    pattern_index(i),
                )
            &&& forall|j: int| 6 * n <= j < old(out)@.len() ==> final(out)@[j] == old(out)@[j]
        }),
{
    let len: usize = out.len();
    let room: usize = len / 6;
    let triangles: usize = if (primitive_count as u64) < room as u64 {
        primitive_count as usize
    } else {
        room
    };
    let n: usize = triangles * 3;
    let mut i: usize = 0;
    while i < n
        invariant
            i <= n,
            n == 3 * triangles,
            6 * triangles <= out@.len(),
            out@.len() == old(out)@.len(),
            len == out@.len(),
            forall|m: int|
                0 <= m < i ==> #[trigger] index16(out@, m) == clamped16(pattern_index(m)),
            forall|j: int| 2 * i <= j < out@.len() ==> out@[j] == old(out)@[j],
        decreases n - i,
    {
        let wide: usize = if i % 3 == 0 {
            0
        } else if i % 3 == 1 {
            i / 3 + 1
        } else {
            i / 3 + 2
        };
        let v: usize = if wide <= 0xffff {
            wide
        } else {
            0xffff
        };
        let at: usize = i * 2;
        let ghost before = out@;
        out[at] = (v % 0x100) as u8;
        out[at + 1] = (v / 0x100) as u8;
        assert forall|m: int| 0 <= m < i implies #[trigger] index16(out@, m) == clamped16(
            pattern_index(m),
        ) by {
            assert(index16(before, m) == clamped16(pattern_index(m)));
        }
        assert(index16(out@, i as int) == v);
        i += 1;
    }
}

/// The list for a fan of vertices that follow each other is the shared pattern, its
/// first vertex added to every index.
pub proof fn sequential_fans_follow_the_pattern(start_vertex: u32, count: u32, n: int)
    requires
        start_vertex + count + 1 <= u32::MAX,
        0 <= n < 3 * count,
    ensures
        list_index(Seq::new((count + 2) as nat, |k: int| (start_vertex + k) as u32), n)
            == start_vertex + pattern_index(n),
{
}

/// Within the most triangles that the shared pattern has, no index is clamped.
pub proof fn the_pattern_is_exact_within_its_limit(n: int)
    requires
        0 <= n < 3 * FAN_PATTERN_MAX_TRIANGLES,
    ensures
        clamped16(pattern_index(n)) == pattern_index(n),
{
}

/// Triangle `i` of a fan has its vertices `0`, `i + 1` and `i + 2`.
pub proof fn fan_triangles(fan: Seq<u32>, i: int)
    requires
        0 <= i < fan.len() - 2,
    ensures
        list_index(fan, 3 * i) == fan[0],
        list_index(fan, 3 * i + 1) == fan[i + 1],
        list_index(fan, 3 * i + 2) == fan[i + 2],
{
}

} // verus!
