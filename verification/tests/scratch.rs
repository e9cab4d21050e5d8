//! Scratch memory over a frame and from frame to frame.

use mtld3d_core::scratch::{Chunk, Region, ScratchArena, DEFAULT_CHUNK_SIZE};

#[test]
fn an_arena_starts_without_chunks() {
    let a = ScratchArena::new();
    assert_eq!(a.chunk_count(), 0);
    assert_eq!(a.capacity_bytes(), 0);
    assert_eq!(a.bytes_used(), 0);
    assert_eq!(DEFAULT_CHUNK_SIZE, 65536);
}

#[test]
fn small_requests_are_packed_at_multiples_of_sixteen() {
    let mut a = ScratchArena::with_chunk_size(64);
    let first = a.alloc_bytes(&[1, 2, 3]);
    let second = a.alloc_bytes(&[4; 17]);
    assert_eq!(first, Region { chunk: Chunk::Small(0), start: 0, len: 3 });
    assert_eq!(second, Region { chunk: Chunk::Small(0), start: 16, len: 17 });
    assert_eq!(a.bytes_used(), 48);
    assert_eq!(a.capacity_bytes(), 64);
    // It no longer fits the chunk.
    let third = a.alloc_bytes(&[5; 20]);
    assert_eq!(third, Region { chunk: Chunk::Small(1), start: 0, len: 20 });
    assert_eq!(a.bytes_used(), 96);
    assert_eq!(a.small_chunk_count(), 2);
}

#[test]
fn stored_bytes_stay_until_the_arena_is_cleared() {
    let mut a = ScratchArena::with_chunk_size(32);
    let regions: Vec<Region> = (0u8..20).map(|i| a.alloc_bytes(&[i; 10])).collect();
    let large = a.alloc_bytes(&[77; 100]);
    for (i, r) in regions.iter().enumerate() {
        assert_eq!(a.bytes(*r), &[i as u8; 10][..]);
    }
    assert_eq!(a.bytes(large), &[77; 100][..]);
    a.write(regions[3], &[9; 10]);
    assert_eq!(a.bytes(regions[3]), &[9; 10][..]);
    assert_eq!(a.bytes(regions[2]), &[2; 10][..]);
    assert_eq!(a.bytes(regions[4]), &[4; 10][..]);
}

#[test]
fn large_requests_get_a_chunk_of_their_own() {
    let mut a = ScratchArena::with_chunk_size(64);
    a.alloc_bytes(&[1; 16]);
    let large = a.alloc_bytes(&[2; 65]);
    assert_eq!(large, Region { chunk: Chunk::Oversized(0), start: 0, len: 65 });
    let next = a.alloc_bytes(&[3; 16]);
    assert_eq!(next, Region { chunk: Chunk::Small(0), start: 16, len: 16 });
    assert_eq!(a.oversized_chunk_count(), 1);
    assert_eq!(a.chunk_count(), 2);
    assert_eq!(a.capacity_bytes(), 64 + 80);
    assert_eq!(a.bytes_used(), 32 + 80);
    // A request of just the size of a chunk is a small one.
    a.alloc_bytes(&[4; 64]);
    assert_eq!(a.oversized_chunk_count(), 1);
}

#[test]
fn padding_is_zero_even_where_bytes_were_before() {
    let mut a = ScratchArena::with_chunk_size(64);
    a.alloc_bytes(&[0xff; 64]);
    a.clear();
    let r = a.alloc_padded(&[1, 2], 6);
    assert_eq!(r.len, 8);
    assert_eq!(a.bytes(r), &[1, 2, 0, 0, 0, 0, 0, 0][..]);
    let stale = a.alloc_uninit::<[u8; 4]>();
    assert_eq!(a.bytes(stale), &[0xff; 4][..]);
}

#[test]
fn room_is_made_by_type() {
    let mut a = ScratchArena::with_chunk_size(64);
    assert_eq!(a.alloc_uninit::<u64>().len, 8);
    let r = a.alloc_uninit_slice::<u32>(3);
    assert_eq!((r.start, r.len), (16, 12));
    assert_eq!(a.bytes(r), &[0; 12][..]);
    assert_eq!(a.alloc_uninit_slice::<u32>(0).len, 0);
}

#[test]
fn clearing_keeps_the_small_chunks() {
    let mut a = ScratchArena::with_chunk_size(32);
    for _ in 0..5 {
        a.alloc_bytes(&[1; 32]);
    }
    a.alloc_bytes(&[1; 33]);
    assert_eq!(a.chunk_count(), 6);
    a.clear();
    assert_eq!(a.small_chunk_count(), 5);
    assert_eq!(a.oversized_chunk_count(), 0);
    assert_eq!(a.bytes_used(), 0);
    // The same frame again needs nothing new.
    for _ in 0..5 {
        a.alloc_bytes(&[1; 32]);
    }
    assert_eq!(a.small_chunk_count(), 5);
    a.alloc_bytes(&[1; 32]);
    assert_eq!(a.small_chunk_count(), 6);
}

#[test]
fn large_chunks_are_the_large_requests() {
    let mut a = ScratchArena::with_chunk_size(64);
    for frame in 0..2 {
        for size in [1, 64, 65, 0, 200, 63, 66] {
            let room = a.alloc_uninit_slice::<u8>(size);
            a.write(room, &vec![7; size]);
            a.alloc_bytes(&vec![1; size]);
        }
        a.alloc_padded(&[1; 60], 5);
        a.alloc_padded(&[1; 60], 4);
        // Of each size above 64 two, and the padded one.
        assert_eq!(a.oversized_chunk_count(), 7, "frame {frame}");
        a.clear();
        assert_eq!(a.oversized_chunk_count(), 0);
    }
    // Where the chunk size is no multiple of sixteen, rounding makes a request large.
    let mut odd = ScratchArena::with_chunk_size(24);
    odd.alloc_bytes(&[1; 20]);
    assert_eq!(odd.oversized_chunk_count(), 1);
}

#[test]
fn capacity_is_that_of_the_small_chunks_without_large_ones() {
    let mut a = ScratchArena::with_chunk_size(48);
    for _ in 0..4 {
        a.alloc_bytes(&[1; 40]);
        assert_eq!(a.capacity_bytes(), u64::from(a.small_chunk_count()) * 48);
        assert!(a.capacity_bytes() >= a.bytes_used());
    }
    a.alloc_bytes(&[1; 49]);
    assert_eq!(a.capacity_bytes(), 4 * 48 + 64);
    a.clear();
    assert_eq!(a.capacity_bytes(), 4 * 48);
}

#[test]
fn requests_of_the_same_sizes_need_the_same_chunks() {
    let sizes = [10, 100, 40, 64, 17, 3, 33, 48];
    let mut a = ScratchArena::with_chunk_size(64);
    for size in sizes {
        a.alloc_bytes(&vec![1; size]);
    }
    let n = a.small_chunk_count();
    assert!(n > 1);
    for _ in 0..3 {
        a.clear();
        for size in sizes {
            let room = a.alloc_uninit_slice::<u8>(size);
            a.write(room, &vec![2; size]);
        }
        assert_eq!(a.small_chunk_count(), n);
    }
}
