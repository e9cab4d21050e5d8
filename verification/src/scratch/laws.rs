//! What holds of an arena over a frame, and from frame to frame.

use super::{aligned, total, ArenaView, Region};
use vstd::prelude::*;

verus! {

/// More chunks have more bytes.
pub proof fn totals_grow(chunks: Seq<Seq<u8>>, n: int)
    requires
        0 <= n <= chunks.len(),
    ensures
        total(chunks.take(n)) <= total(chunks),
    decreases chunks.len() - n,
{
    if n < chunks.len() {
        totals_grow(chunks, n + 1);
        assert(chunks.take(n + 1).drop_last() =~= chunks.take(n));
    } else {
        assert(chunks.take(n) =~= chunks);
    }
}

/// No more is in use than there is.
pub proof fn use_is_within_capacity(v: ArenaView)
    requires
        v.wf(),
    ensures
        v.used() <= v.capacity(),
{
    if v.small.len() == 0 {
        assert(v.small.take(0) =~= v.small);
    } else {
        let n = v.current as int;
        totals_grow(v.small, n + 1);
        assert(v.small.take(n + 1).drop_last() =~= v.small.take(n));
        assert(v.small.take(n + 1).last() == v.small[n]);
    }
}

proof fn equal_chunks_total(chunks: Seq<Seq<u8>>, size: nat)
    requires
        forall|i: int| 0 <= i < chunks.len() ==> (#[trigger] chunks[i]).len() == size,
    ensures
        total(chunks) == chunks.len() * size,
    decreases chunks.len(),
{
    if chunks.len() > 0 {
        let n = chunks.len() - 1;
        equal_chunks_total(chunks.drop_last(), size);
        assert(chunks.last() == chunks[n]);
        assert(n * size + size == (n + 1) * size) by (nonlinear_arith);
    } else {
        assert(0 * size == 0) by (nonlinear_arith);
    }
}

/// There is at least what the small chunks have together, and more exactly when there is a
/// large chunk.
pub proof fn capacity_is_that_of_the_chunks(v: ArenaView)
    requires
        v.wf(),
    ensures
        total(v.small) == v.small.len() * v.chunk_size,
        v.capacity() >= v.small.len() * v.chunk_size,
        v.capacity() == v.small.len() * v.chunk_size <==> v.oversized.len() == 0,
        v.capacity() >= v.used(),
{
    equal_chunks_total(v.small, v.chunk_size);
    use_is_within_capacity(v);
    if v.oversized.len() > 0 {
        let n = v.oversized.len() - 1;
        assert(v.oversized.last() == v.oversized[n]);
    }
}

/// What is written to a region is what it reads.
pub proof fn written_bytes_read_back(v: ArenaView, r: Region, data: Seq<u8>)
    requires
        v.wf(),
        v.live(r),
        data.len() == r.len,
    ensures
        v.written(r, data).read(r) == data,
        v.written(r, data).wf(),
        v.written(r, data).live(r),
{
    assert(v.written(r, data).read(r) =~= data);
}

/// Whether two regions have no byte in common.
pub open spec fn apart(a: Region, b: Region) -> bool {
    a.chunk != b.chunk || a.start + a.len <= b.start || b.start + b.len <= a.start
}

/// A region that is handed out has no byte in common with those that were handed out
/// before in the same frame.
pub proof fn regions_are_apart(v: ArenaView, size: nat, earlier: Region)
    requires
        v.wf(),
        v.live(earlier),
        size + 15 <= usize::MAX,
        v.small.len() < usize::MAX,
        v.oversized.len() < usize::MAX,
        v.chunk_size <= usize::MAX,
    ensures
        apart(v.place(size), earlier),
{
}

/// Writing to one region leaves the others alone.
pub proof fn writes_leave_other_regions_alone(
    v: ArenaView,
    r: Region,
    data: Seq<u8>,
    other: Region,
)
    requires
        v.wf(),
        v.live(r),
        v.live(other),
        data.len() == r.len,
        apart(r, other),
    ensures
        v.written(r, data).read(other) == v.read(other),
        v.written(r, data).live(other),
{
    assert(v.written(r, data).read(other) =~= v.read(other));
}

/// What was handed out keeps its place and its bytes when more is handed out.
pub proof fn regions_stay(v: ArenaView, size: nat, earlier: Region)
    requires
        v.wf(),
        v.live(earlier),
    ensures
        v.reserved(size).wf(),
        v.reserved(size).live(earlier),
        v.reserved(size).read(earlier) == v.read(earlier),
{
    rounding_up(size);
    assert(v.reserved(size).read(earlier) =~= v.read(earlier));
}

/// Rounding up gives the least multiple that is enough.
pub proof fn rounding_up(size: nat)
    ensures
        aligned(size) % 16 == 0,
        size <= aligned(size) < size + 16,
{
}

/// What was stored stays as it is while more is stored, until the arena is cleared.
pub proof fn stored_bytes_stay(v: ArenaView, data: Seq<u8>, earlier: Region)
    requires
        v.wf(),
        v.live(earlier),
        data.len() + 15 <= usize::MAX,
        v.small.len() < usize::MAX,
        v.oversized.len() < usize::MAX,
        v.chunk_size <= usize::MAX,
    ensures
        v.stored(data).wf(),
        v.stored(data).live(earlier),
        v.stored(data).read(earlier) == v.read(earlier),
        v.stored(data).live(v.place(data.len())),
        v.stored(data).read(v.place(data.len())) == data,
{
    let size = data.len();
    rounding_up(size);
    regions_stay(v, size, earlier);
    regions_are_apart(v, size, earlier);
    written_bytes_read_back(v.reserved(size), v.place(size), data);
    writes_leave_other_regions_alone(v.reserved(size), v.place(size), data, earlier);
}

/// Every region starts at a multiple of the alignment.
pub proof fn regions_are_aligned(v: ArenaView, size: nat)
    requires
        v.wf(),
        v.chunk_size <= usize::MAX,
    ensures
        v.place(size).start % 16 == 0,
{
}

/// Clearing gives everything back and keeps the small chunks.
pub proof fn clearing_keeps_the_small_chunks(v: ArenaView)
    requires
        v.wf(),
    ensures
        v.cleared().wf(),
        v.cleared().small == v.small,
        v.cleared().used() == 0,
        forall|r: Region| r.len > 0 ==> !(#[trigger] v.cleared().live(r)),
{
    assert(v.cleared().small.take(0) =~= Seq::<Seq<u8>>::empty());
}

/// One thing that is done to an arena between two clearings: room is made, bytes are
/// stored, or bytes are put into a region that was handed out.
pub enum Step {
    Room(nat),
    Bytes(Seq<u8>),
    Write(Region, Seq<u8>),
}

impl Step {
    /// How much is requested, if anything is.
    pub open spec fn size(self) -> Option<nat> {
        match self {
            Step::Room(size) => Some(size),
            Step::Bytes(data) => Some(data.len()),
            Step::Write(..) => None,
        }
    }

    /// Whether it can be done: a request can be counted, and what is written to was handed
    /// out and is filled.
    pub open spec fn possible(self, v: ArenaView) -> bool {
        match self {
            Step::Write(r, data) => v.live(r) && data.len() == r.len,
            _ => self.size()->0 + 15 <= usize::MAX && v.small.len() < usize::MAX
                && v.oversized.len() < usize::MAX,
        }
    }

    /// The arena afterwards.
    pub open spec fn done(self, v: ArenaView) -> ArenaView {
        match self {
            Step::Room(size) => v.reserved(size),
            Step::Bytes(data) => v.stored(data),
            Step::Write(r, data) => v.written(r, data),
        }
    }
}

/// The arena after some steps.
pub open spec fn after(v: ArenaView, steps: Seq<Step>) -> ArenaView
    decreases steps.len(),
{
    if steps.len() == 0 {
        v
    } else {
        steps.last().done(after(v, steps.drop_last()))
    }
}

/// Whether some steps can be done one after the other.
pub open spec fn possible(v: ArenaView, steps: Seq<Step>) -> bool
    decreases steps.len(),
{
    steps.len() == 0 || (possible(v, steps.drop_last()) && steps.last().possible(
        after(v, steps.drop_last()),
    ))
}

/// The sizes of the requests among some steps, in their order.
pub open spec fn requested(steps: Seq<Step>) -> Seq<nat>
    decreases steps.len(),
{
    if steps.len() == 0 {
        Seq::empty()
    } else {
        match steps.last().size() {
            Some(size) => requested(steps.drop_last()).push(size),
            None => requested(steps.drop_last()),
        }
    }
}

/// The arena after some requests that store nothing.
pub open spec fn reserving(v: ArenaView, sizes: Seq<nat>) -> ArenaView
    decreases sizes.len(),
{
    if sizes.len() == 0 {
        v
    } else {
        reserving(v, sizes.drop_last()).reserved(sizes.last())
    }
}

/// How many small chunks a frame with some requests needs.
pub open spec fn needed(chunk_size: nat, sizes: Seq<nat>) -> nat {
    reserving(ArenaView::empty(chunk_size), sizes).small.len()
}

/// Whether two arenas have the same chunks, filled alike, if perhaps with other bytes.
pub open spec fn same_shape(a: ArenaView, b: ArenaView) -> bool {
    &&& a.small.len() == b.small.len()
    &&& a.oversized.len() == b.oversized.len()
    &&& a.current == b.current
    &&& a.cursor == b.cursor
    &&& a.chunk_size == b.chunk_size
}

/// An arena is in order from the start, and whatever is done to it keeps it so.
pub proof fn arenas_stay_in_order(v: ArenaView, step: Step, chunk_size: nat)
    requires
        v.wf(),
        v.chunk_size <= usize::MAX,
        step.possible(v),
    ensures
        ArenaView::empty(chunk_size).wf(),
        ArenaView::empty(chunk_size).cleared() == ArenaView::empty(chunk_size),
        v.cleared().wf(),
        step.done(v).wf(),
        step.done(v).chunk_size == v.chunk_size,
{
    shapes_go_by_requests(v, step);
    assert(ArenaView::empty(chunk_size).cleared() =~= ArenaView::empty(chunk_size));
}

proof fn shapes_go_by_requests(v: ArenaView, step: Step)
    requires
        v.wf(),
        v.chunk_size <= usize::MAX,
        step.possible(v),
    ensures
        step.done(v).wf(),
        match step.size() {
            Some(size) => same_shape(step.done(v), v.reserved(size)),
            None => same_shape(step.done(v), v),
        },
{
    match step {
        Step::Room(size) => {
            rounding_up(size);
        },
        Step::Bytes(data) => {
            let size = data.len();
            rounding_up(size);
            assert(v.reserved(size).wf());
            assert(v.reserved(size).live(v.place(size)));
            written_bytes_read_back(v.reserved(size), v.place(size), data);
        },
        Step::Write(r, data) => {
            written_bytes_read_back(v, r, data);
        },
    }
}

proof fn runs_go_by_requests(v: ArenaView, steps: Seq<Step>)
    requires
        v.wf(),
        v.chunk_size <= usize::MAX,
        possible(v, steps),
    ensures
        after(v, steps).wf(),
        after(v, steps).chunk_size == v.chunk_size,
        same_shape(after(v, steps), reserving(v, requested(steps))),
    decreases steps.len(),
{
    if steps.len() > 0 {
        runs_go_by_requests(v, steps.drop_last());
        shapes_go_by_requests(after(v, steps.drop_last()), steps.last());
        match steps.last().size() {
            Some(size) => {
                let before = requested(steps.drop_last());
                assert(before.push(size).drop_last() =~= before);
            },
            None => {},
        }
    }
}

proof fn frames_run_alike(v: ArenaView, sizes: Seq<nat>)
    requires
        v.wf(),
        v.current == 0,
        v.cursor == 0,
    ensures
        ({
            let warm = reserving(v, sizes);
            let cold = reserving(ArenaView::empty(v.chunk_size), sizes);
            &&& warm.wf() && cold.wf()
            &&& warm.chunk_size == v.chunk_size && cold.chunk_size == v.chunk_size
            &&& warm.current == cold.current && warm.cursor == cold.cursor
            &&& cold.small.len() > 0 ==> cold.small.len() == cold.current + 1
            &&& warm.small.len() == if v.small.len() >= cold.small.len() {
                v.small.len()
            } else {
                cold.small.len()
            }
        }),
    decreases sizes.len(),
{
    if sizes.len() > 0 {
        frames_run_alike(v, sizes.drop_last());
        rounding_up(sizes.last());
    }
}

/// A frame needs a number of small chunks that goes by the sizes of its requests, and adds
/// only those that are missing.
pub proof fn frames_add_only_missing_chunks(v: ArenaView, steps: Seq<Step>)
    requires
        v.wf(),
        v.chunk_size <= usize::MAX,
        possible(v.cleared(), steps),
    ensures
        after(v.cleared(), steps).small.len() == if v.small.len() >= needed(
            v.chunk_size,
            requested(steps),
        ) {
            v.small.len()
        } else {
            needed(v.chunk_size, requested(steps))
        },
{
    runs_go_by_requests(v.cleared(), steps);
    frames_run_alike(v.cleared(), requested(steps));
}

/// A frame with requests of the same sizes as the one before has the same number of small
/// chunks: it walks those that were kept and adds none.
pub proof fn a_repeated_frame_adds_no_chunk(v: ArenaView, steps: Seq<Step>, again: Seq<Step>)
    requires
        v.wf(),
        v.chunk_size <= usize::MAX,
        possible(v.cleared(), steps),
        possible(after(v.cleared(), steps).cleared(), again),
        requested(again) == requested(steps),
    ensures
        after(after(v.cleared(), steps).cleared(), again).small.len() == after(
            v.cleared(),
            steps,
        ).small.len(),
{
    runs_go_by_requests(v.cleared(), steps);
    frames_add_only_missing_chunks(v, steps);
    frames_add_only_missing_chunks(after(v.cleared(), steps), again);
}

/// The same from the very first frame on: a new arena that served some requests and was
/// cleared serves requests of the same sizes without another small chunk.
pub proof fn the_second_frame_adds_no_chunk(
    chunk_size: nat,
    steps: Seq<Step>,
    again: Seq<Step>,
)
    requires
        chunk_size <= usize::MAX,
        possible(ArenaView::empty(chunk_size), steps),
        possible(after(ArenaView::empty(chunk_size), steps).cleared(), again),
        requested(again) == requested(steps),
    ensures
        after(after(ArenaView::empty(chunk_size), steps).cleared(), again).small.len() == after(
            ArenaView::empty(chunk_size),
            steps,
        ).small.len(),
{
    assert(ArenaView::empty(chunk_size).cleared() =~= ArenaView::empty(chunk_size));
    a_repeated_frame_adds_no_chunk(ArenaView::empty(chunk_size), steps, again);
}

/// Only requests that are larger than a chunk get one of their own, and those leave the
/// chunk that is being filled alone.
pub proof fn only_large_requests_get_a_chunk_of_their_own(v: ArenaView, size: nat)
    ensures
        aligned(size) > v.chunk_size ==> v.reserved(size).small == v.small && v.reserved(
            size,
        ).current == v.current && v.reserved(size).cursor == v.cursor,
        v.reserved(size).oversized.len() == v.oversized.len() + (if aligned(size) > v.chunk_size {
            1nat
        } else {
            0nat
        }),
{
}

/// How many of some sizes are larger than a chunk.
pub open spec fn large(sizes: Seq<nat>, chunk_size: nat) -> nat {
    sizes.filter(|size: nat| size > chunk_size).len()
}

proof fn large_requests_add_up(v: ArenaView, sizes: Seq<nat>)
    requires
        v.chunk_size % 16 == 0,
    ensures
        reserving(v, sizes).chunk_size == v.chunk_size,
        reserving(v, sizes).oversized.len() == v.oversized.len() + large(sizes, v.chunk_size),
    decreases sizes.len(),
{
    reveal(Seq::filter);
    if sizes.len() > 0 {
        large_requests_add_up(v, sizes.drop_last());
        rounding_up(sizes.last());
        rounding_keeps_within(sizes.last(), v.chunk_size);
    }
}

proof fn rounding_keeps_within(size: nat, limit: nat)
    requires
        limit % 16 == 0,
    ensures
        aligned(size) > limit <==> size > limit,
{
}

/// After a run of requests there are as many large chunks as requests for more than the
/// chunk size, where that is a multiple of the alignment, since the arena was made or last
/// cleared. A request for just the chunk size is not among them.
pub proof fn large_chunks_are_the_large_requests(v: ArenaView, steps: Seq<Step>)
    requires
        v.wf(),
        v.chunk_size <= usize::MAX,
        v.chunk_size % 16 == 0,
    ensures
        possible(v, steps) ==> after(v, steps).oversized.len() == v.oversized.len() + large(
            requested(steps),
            v.chunk_size,
        ),
        possible(v.cleared(), steps) ==> after(v.cleared(), steps).oversized.len() == large(
            requested(steps),
            v.chunk_size,
        ),
        possible(ArenaView::empty(v.chunk_size), steps) ==> after(
            ArenaView::empty(v.chunk_size),
            steps,
        ).oversized.len() == large(requested(steps), v.chunk_size),
{
    if possible(v, steps) {
        runs_go_by_requests(v, steps);
    }
    if possible(v.cleared(), steps) {
        runs_go_by_requests(v.cleared(), steps);
    }
    if possible(ArenaView::empty(v.chunk_size), steps) {
        runs_go_by_requests(ArenaView::empty(v.chunk_size), steps);
    }
    large_requests_add_up(v, requested(steps));
    large_requests_add_up(v.cleared(), requested(steps));
    large_requests_add_up(ArenaView::empty(v.chunk_size), requested(steps));
}

} // verus!
