use opus_wasm_alloc::bytes::{copy_prefix, zero_fill};
use opus_wasm_alloc::layout::{power_of_two, BlockLayout, LayoutError, ALLOC_ALIGN};
use opus_wasm_alloc::table::{
    init_alloc_table, plan_alloc, plan_calloc, AllocEnd, AllocStep, AllocTable, CallocStep,
    FreeStep, ReallocEnd, ReallocStep,
};

/// Runs the allocation path with a stand-in for the global allocator that
/// returns `addr`, and gives back the address handed to the caller (0 for null).
fn alloc_with(table: &mut AllocTable, size: usize, addr: usize) -> usize {
    match plan_alloc(size) {
        AllocStep::ReturnNull => 0,
        AllocStep::InvalidLayout => 0,
        AllocStep::Allocate(layout) => match table.record_alloc(layout, addr) {
            AllocEnd::Failed => 0,
            AllocEnd::Allocated(a) => a,
        },
    }
}

fn layout(size: usize) -> BlockLayout {
    BlockLayout::from_size_align(size, ALLOC_ALIGN).unwrap()
}

#[test]
fn test_alloc_free() {
    let mut table = AllocTable::new();
    let ptr = alloc_with(&mut table, 100, 0x1000);
    assert!(ptr != 0);
    assert_eq!(table.release(ptr), FreeStep::Release(layout(100)));
    assert_eq!(table.len(), 0);
}

#[test]
fn test_alloc_zero() {
    let mut table = AllocTable::new();
    let ptr = alloc_with(&mut table, 0, 0x1000);
    assert!(ptr == 0);
    assert_eq!(plan_alloc(0), AllocStep::ReturnNull);
    assert_eq!(table.len(), 0);
}

#[test]
fn test_realloc() {
    let mut table = AllocTable::new();
    let ptr = alloc_with(&mut table, 100, 0x1000);
    assert!(ptr != 0);

    let step = table.plan_realloc(ptr, 200);
    assert_eq!(
        step,
        ReallocStep::Move { old: layout(100), new: layout(200), copy_len: 100 }
    );
    let ptr2 = match step {
        ReallocStep::Move { new, .. } => match table.record_move(ptr, new, 0x2000) {
            ReallocEnd::Moved(a) => a,
            ReallocEnd::Failed => 0,
        },
        _ => 0,
    };
    assert!(ptr2 != 0);
    assert!(!table.is_tracked(ptr));

    assert_eq!(table.release(ptr2), FreeStep::Release(layout(200)));
    assert_eq!(table.len(), 0);
}

#[test]
fn test_calloc() {
    let mut table = AllocTable::new();
    let total = match plan_calloc(10, 10) {
        CallocStep::Allocate(total) => total,
        _ => 0,
    };
    assert_eq!(total, 100);
    let ptr = alloc_with(&mut table, total, 0x3000);
    assert!(ptr != 0);

    // The block as the allocator handed it over, with leftover contents.
    let mut memory = vec![0xA5u8; total];
    zero_fill(&mut memory);
    for i in 0..100 {
        assert_eq!(memory[i], 0);
    }

    assert_eq!(table.release(ptr), FreeStep::Release(layout(100)));
}

#[test]
fn layout_accepts_power_of_two_alignments() {
    let l = BlockLayout::from_size_align(24, 8).unwrap();
    assert_eq!(l.size(), 24);
    assert_eq!(l.align(), 8);
    assert!(BlockLayout::from_size_align(0, 1).is_ok());
    assert!(BlockLayout::from_size_align(5, 64).is_ok());
}

#[test]
fn layout_refuses_bad_alignments() {
    assert_eq!(BlockLayout::from_size_align(8, 0), Err(LayoutError));
    assert_eq!(BlockLayout::from_size_align(8, 3), Err(LayoutError));
    assert_eq!(BlockLayout::from_size_align(8, 12), Err(LayoutError));
}

#[test]
fn layout_size_limit_is_isize_max_rounded() {
    let max = isize::MAX as usize;
    assert!(BlockLayout::from_size_align(max - 7, 8).is_ok());
    assert_eq!(BlockLayout::from_size_align(max - 6, 8), Err(LayoutError));
    assert!(BlockLayout::from_size_align(max, 1).is_ok());
    assert_eq!(BlockLayout::from_size_align(max + 1, 1), Err(LayoutError));
}

#[test]
fn power_of_two_values() {
    assert!(!power_of_two(0));
    assert!(power_of_two(1));
    assert!(power_of_two(2));
    assert!(power_of_two(1024));
    assert!(!power_of_two(6));
    assert!(!power_of_two(usize::MAX));
    assert!(power_of_two(1usize << (usize::BITS - 1)));
}

#[test]
fn plan_alloc_rejects_oversized_request() {
    assert_eq!(plan_alloc(usize::MAX), AllocStep::InvalidLayout);
    assert_eq!(plan_alloc(isize::MAX as usize - 6), AllocStep::InvalidLayout);
    assert_eq!(plan_alloc(isize::MAX as usize - 7), AllocStep::Allocate(layout(isize::MAX as usize - 7)));
}

#[test]
fn plan_alloc_uses_block_alignment() {
    match plan_alloc(3) {
        AllocStep::Allocate(l) => {
            assert_eq!(l.size(), 3);
            assert_eq!(l.align(), 8);
        }
        other => panic!("unexpected step {:?}", other),
    }
}

#[test]
fn failed_allocation_records_nothing() {
    let mut table = AllocTable::new();
    assert_eq!(table.record_alloc(layout(16), 0), AllocEnd::Failed);
    assert_eq!(table.len(), 0);
    assert!(!table.is_tracked(0));
}

#[test]
fn release_of_null_is_ignored() {
    let mut table = AllocTable::new();
    alloc_with(&mut table, 16, 0x40);
    assert_eq!(table.release(0), FreeStep::Ignore);
    assert_eq!(table.len(), 1);
}

#[test]
fn release_of_untracked_pointer_changes_nothing() {
    let mut table = AllocTable::new();
    alloc_with(&mut table, 16, 0x40);
    assert_eq!(table.release(0x80), FreeStep::Untracked);
    assert_eq!(table.len(), 1);
    assert!(table.is_tracked(0x40));
}

#[test]
fn double_release_is_untracked() {
    let mut table = AllocTable::new();
    alloc_with(&mut table, 16, 0x40);
    assert_eq!(table.release(0x40), FreeStep::Release(layout(16)));
    assert_eq!(table.release(0x40), FreeStep::Untracked);
    assert_eq!(table.len(), 0);
}

#[test]
fn release_returns_the_recorded_layout_among_many() {
    let mut table = AllocTable::new();
    alloc_with(&mut table, 10, 0x100);
    alloc_with(&mut table, 20, 0x200);
    alloc_with(&mut table, 30, 0x300);
    assert_eq!(table.len(), 3);
    assert_eq!(table.release(0x200), FreeStep::Release(layout(20)));
    assert_eq!(table.len(), 2);
    assert!(table.is_tracked(0x100));
    assert!(table.is_tracked(0x300));
}

#[test]
fn realloc_of_null_allocates() {
    let table = AllocTable::new();
    assert_eq!(table.plan_realloc(0, 64), ReallocStep::AllocFresh);
    assert_eq!(table.plan_realloc(0, 0), ReallocStep::AllocFresh);
}

#[test]
fn realloc_to_zero_frees() {
    let mut table = AllocTable::new();
    alloc_with(&mut table, 16, 0x40);
    assert_eq!(table.plan_realloc(0x40, 0), ReallocStep::FreeOld);
    assert_eq!(table.plan_realloc(0x99, 0), ReallocStep::FreeOld);
}

#[test]
fn realloc_shrink_copies_new_size() {
    let mut table = AllocTable::new();
    alloc_with(&mut table, 100, 0x40);
    assert_eq!(
        table.plan_realloc(0x40, 30),
        ReallocStep::Move { old: layout(100), new: layout(30), copy_len: 30 }
    );
}

#[test]
fn realloc_to_invalid_size_keeps_block() {
    let mut table = AllocTable::new();
    alloc_with(&mut table, 100, 0x40);
    assert_eq!(table.plan_realloc(0x40, usize::MAX), ReallocStep::InvalidLayout);
    assert!(table.is_tracked(0x40));
}

#[test]
fn realloc_of_untracked_pointer_copies_new_size() {
    let table = AllocTable::new();
    assert_eq!(table.plan_realloc(0x40, 48), ReallocStep::Untracked { copy_len: 48 });
}

#[test]
fn failed_move_keeps_old_block() {
    let mut table = AllocTable::new();
    alloc_with(&mut table, 100, 0x40);
    assert_eq!(table.record_move(0x40, layout(200), 0), ReallocEnd::Failed);
    assert!(table.is_tracked(0x40));
    assert_eq!(table.release(0x40), FreeStep::Release(layout(100)));
}

#[test]
fn calloc_overflow_and_zero() {
    assert_eq!(plan_calloc(usize::MAX, 2), CallocStep::Overflow);
    assert_eq!(plan_calloc(2, usize::MAX / 2 + 1), CallocStep::Overflow);
    assert_eq!(plan_calloc(0, 10), CallocStep::ReturnNull);
    assert_eq!(plan_calloc(10, 0), CallocStep::ReturnNull);
    assert_eq!(plan_calloc(3, 7), CallocStep::Allocate(21));
}

#[test]
fn copy_prefix_keeps_tail() {
    let src = vec![1u8, 2, 3, 4, 5];
    let mut dst = vec![9u8; 4];
    copy_prefix(&src, &mut dst, 3);
    assert_eq!(dst, vec![1u8, 2, 3, 9]);
    copy_prefix(&src, &mut dst, 0);
    assert_eq!(dst, vec![1u8, 2, 3, 9]);
}

#[test]
fn zero_fill_empty_and_full() {
    let mut empty: Vec<u8> = Vec::new();
    zero_fill(&mut empty);
    assert!(empty.is_empty());
    let mut full = vec![7u8; 9];
    zero_fill(&mut full);
    assert_eq!(full, vec![0u8; 9]);
}

#[test]
fn init_alloc_table_creates_once() {
    let mut slot: Option<AllocTable> = None;
    init_alloc_table(&mut slot);
    assert!(slot.is_some());
    assert_eq!(slot.as_ref().unwrap().len(), 0);
    alloc_with(slot.as_mut().unwrap(), 8, 0x10);
    init_alloc_table(&mut slot);
    assert_eq!(slot.as_ref().unwrap().len(), 1);
    assert!(slot.as_ref().unwrap().is_tracked(0x10));
}

#[test]
fn release_undoes_record_scenario() {
    let mut table = AllocTable::new();
    alloc_with(&mut table, 12, 0x500);
    let before = table.len();
    alloc_with(&mut table, 40, 0x600);
    assert_eq!(table.len(), before + 1);
    assert_eq!(table.release(0x600), FreeStep::Release(layout(40)));
    assert_eq!(table.len(), before);
    assert!(table.is_tracked(0x500));
}

#[test]
fn release_after_move_scenario() {
    let mut table = AllocTable::new();
    alloc_with(&mut table, 12, 0x500);
    alloc_with(&mut table, 40, 0x600);
    assert_eq!(table.record_move(0x600, layout(80), 0x700), ReallocEnd::Moved(0x700));
    assert!(!table.is_tracked(0x600));
    assert_eq!(table.release(0x700), FreeStep::Release(layout(80)));
    assert_eq!(table.len(), 1);
}
