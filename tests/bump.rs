use bump_alloc::{AllocErr, BumpAlloc, BumpAllocErr, Layout};
use std::mem;

const BASE: usize = 0x1000;

/// An arena over the block `[BASE, BASE + capacity)`.
fn arena(capacity: usize) -> BumpAlloc {
    BumpAlloc::with_capacity_in(capacity, |_layout: Layout| Ok::<usize, AllocErr>(BASE))
}

fn layout(size: usize, align: usize) -> Layout {
    Layout::from_size_align(size, align).unwrap()
}

#[test]
fn bump_alloc() {
    let mut bump = arena(mem::size_of::<f32>() * 2);

    let alloc_a = bump.alloc_t::<f32>().unwrap();
    assert_eq!(alloc_a, BASE + 4);
    assert_eq!(alloc_a % mem::align_of::<f32>(), 0);

    let alloc_b = bump.alloc_t::<f32>().unwrap();
    assert_eq!(alloc_b, BASE);
    assert_eq!(alloc_b % mem::align_of::<f32>(), 0);
}

#[test]
fn bump_reset() {
    let mut bump = arena(mem::size_of::<f32>());

    for _idx in 0..=2 {
        bump.reset();

        let new_alloc = bump.alloc_t::<f32>().unwrap();
        assert_eq!(new_alloc, BASE);
    }
}

#[test]
fn bump_reset_unchecked() {
    let mut bump = arena(mem::size_of::<f32>());

    let mut prev: Option<usize> = None;

    for _idx in 0..=2 {
        bump.reset_unchecked();

        let new_alloc = bump.alloc_t::<f32>().unwrap();
        assert_eq!(new_alloc, BASE);

        if let Some(prev_alloc) = prev {
            assert_eq!(new_alloc, prev_alloc);
        }

        prev = Some(new_alloc);
    }
}

#[test]
#[should_panic]
fn bump_invalid_alloc_nomemory() {
    let mut bump = arena(mem::size_of::<f32>());

    for _idx in 0..=1 {
        let _alloc = bump.alloc_t::<f32>().unwrap();
    }
}

#[test]
fn zero_capacity_never_calls_backing_allocator() {
    let r = BumpAlloc::try_with_capacity_in(0, |_layout: Layout| -> Result<usize, AllocErr> {
        panic!("the backing allocator must not be called")
    });
    assert!(matches!(r, Err(BumpAllocErr::ZeroCapacity)));
}

#[test]
fn backing_failure_is_reported_with_layout() {
    let r = BumpAlloc::try_with_capacity_in(16, |_layout: Layout| Err::<usize, u8>(7));
    assert_eq!(
        r.err(),
        Some(BumpAllocErr::AllocError { layout: layout(16, 1), inner: 7u8 })
    );
}

#[test]
fn backing_allocator_gets_capacity_bytes_byte_aligned() {
    let mut seen: Option<Layout> = None;
    let r = BumpAlloc::try_with_capacity_in(24, |l: Layout| {
        seen = Some(l);
        Ok::<usize, AllocErr>(BASE)
    });
    assert!(r.is_ok());
    assert_eq!(seen, Some(layout(24, 1)));
}

#[test]
fn third_value_does_not_fit() {
    let mut bump = arena(2 * mem::size_of::<u32>());
    assert_eq!(bump.alloc_t::<u32>(), Ok(BASE + 4));
    assert_eq!(bump.alloc_t::<u32>(), Ok(BASE));
    assert_eq!(bump.alloc_t::<u32>(), Err(AllocErr));
}

#[test]
fn reset_returns_first_address() {
    let mut bump = arena(4);
    let first = bump.alloc_t::<u32>().unwrap();
    bump.reset();
    let second = bump.alloc_t::<u32>().unwrap();
    assert_eq!(first, second);
}

#[test]
fn reset_after_many_requests_rewinds_fully() {
    let mut fresh = arena(64);
    let expected = fresh.allocate(layout(8, 8)).unwrap();

    let mut bump = arena(64);
    bump.allocate(layout(3, 1)).unwrap();
    bump.allocate(layout(5, 4)).unwrap();
    bump.allocate(layout(16, 16)).unwrap();
    bump.reset();
    assert_eq!(bump.allocate(layout(8, 8)), Ok(expected));
}

#[test]
fn unchecked_reset_loop_reuses_one_address() {
    let mut bump = arena(4);
    let mut prev: Option<usize> = None;
    for _idx in 0..3 {
        bump.reset_unchecked();
        let addr = bump.alloc_t::<u32>().unwrap();
        if let Some(p) = prev {
            assert_eq!(addr, p);
        }
        prev = Some(addr);
    }
}

#[test]
fn dealloc_changes_nothing() {
    let mut plain = arena(32);
    plain.allocate(layout(4, 4)).unwrap();
    let expected = plain.allocate(layout(8, 8));

    let mut bump = arena(32);
    let a = bump.allocate(layout(4, 4)).unwrap();
    bump.dealloc(a, layout(4, 4));
    bump.dealloc(a, layout(4, 4));
    bump.dealloc(a, layout(4, 4));
    assert_eq!(bump.allocate(layout(8, 8)), expected);
}

#[test]
fn addresses_round_down_to_alignment() {
    let mut bump = arena(16);
    assert_eq!(bump.allocate(layout(3, 1)), Ok(0x100D));
    assert_eq!(bump.allocate(layout(4, 8)), Ok(0x1008));
    assert_eq!(bump.allocate(layout(1, 4)), Ok(0x1004));
}

#[test]
fn alignment_padding_can_exhaust_the_arena() {
    let mut bump = BumpAlloc::with_capacity_in(8, |_l: Layout| Ok::<usize, AllocErr>(0x1001));
    assert_eq!(bump.allocate(layout(1, 8)), Ok(0x1008));
    assert_eq!(bump.allocate(layout(1, 8)), Err(AllocErr));
    // a failure leaves the cursor where it was
    assert_eq!(bump.allocate(layout(1, 1)), Ok(0x1007));
}

#[test]
fn cursor_below_size_fails() {
    let mut bump = BumpAlloc::with_capacity_in(2, |_l: Layout| Ok::<usize, AllocErr>(1));
    assert_eq!(bump.allocate(layout(2, 1)), Ok(1));
    assert_eq!(bump.allocate(layout(2, 1)), Err(AllocErr));
}

#[test]
fn request_larger_than_capacity_fails() {
    let mut bump = arena(8);
    assert_eq!(bump.allocate(layout(9, 1)), Err(AllocErr));
    assert_eq!(bump.allocate(layout(8, 1)), Ok(BASE));
}

#[test]
fn allocations_do_not_overlap() {
    let mut bump = arena(64);
    let requests = [layout(3, 1), layout(8, 8), layout(5, 2), layout(16, 16)];
    let mut blocks: Vec<(usize, usize)> = Vec::new();
    for l in requests.iter() {
        let a = bump.allocate(*l).unwrap();
        assert_eq!(a % l.align, 0);
        assert!(a >= BASE && a + l.size <= BASE + 64);
        for &(b, size) in blocks.iter() {
            assert!(a + l.size <= b || b + size <= a);
        }
        blocks.push((a, l.size));
    }
}

#[test]
fn realloc_carves_a_new_block() {
    let mut bump = arena(16);
    let a = bump.allocate(layout(4, 4)).unwrap();
    let b = bump.realloc(a, layout(4, 4), layout(8, 4)).unwrap();
    assert_eq!(a, BASE + 12);
    assert_eq!(b, BASE + 4);
    assert_eq!(bump.realloc(b, layout(8, 4), layout(8, 4)), Err(AllocErr));
}

#[test]
fn layout_checks_size_and_alignment() {
    assert!(Layout::from_size_align(0, 1).is_none());
    assert!(Layout::from_size_align(4, 0).is_none());
    assert!(Layout::from_size_align(4, 3).is_none());
    assert!(Layout::from_size_align(4, 12).is_none());
    let l = Layout::from_size_align(4, 16).unwrap();
    assert_eq!((l.size, l.align), (4, 16));
    let m = Layout::of::<u64>();
    assert_eq!((m.size, m.align), (mem::size_of::<u64>(), mem::align_of::<u64>()));
}
