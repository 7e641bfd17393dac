use kernel_core::allocator::{
    EfiMemoryDescriptor, FirstFitAllocator, Header, CONVENTIONAL_MEMORY, LOADER_CODE,
};
use kernel_core::util::{extract_bits, round_up_to_nearest_pow2};

fn desc(memory_type: u32, start: u64, pages: u64) -> EfiMemoryDescriptor {
    EfiMemoryDescriptor {
        memory_type,
        physical_start: start,
        virtual_start: 0,
        number_of_pages: pages,
        attribute: 0,
    }
}

fn heap() -> FirstFitAllocator {
    let mut a = FirstFitAllocator::new();
    a.init_with_mmap(&vec![
        desc(LOADER_CODE, 0x1000, 4),
        desc(CONVENTIONAL_MEMORY, 0x10_0000, 0x4000),
        desc(3, 0x500_0000, 8),
        desc(CONVENTIONAL_MEMORY, 0x1000_0000, 0x8000),
    ]);
    a
}

fn check_heap(a: &FirstFitAllocator) {
    let hs = a.headers();
    for (i, h) in hs.iter().enumerate() {
        assert!(h.size >= 16);
        assert_eq!(h.addr % 16, 0);
        assert_eq!(h.size % 16, 0);
        for g in hs.iter().skip(i + 1) {
            let h_end = h.addr + h.size as usize;
            let g_end = g.addr + g.size as usize;
            assert!(h_end <= g.addr || g_end <= h.addr);
        }
    }
}

#[test]
fn init_takes_conventional_memory_only_newest_first() {
    let a = heap();
    assert_eq!(
        a.headers().clone(),
        vec![
            Header { addr: 0x1000_0000, size: 0x800_0000, is_allocated: false },
            Header { addr: 0x10_0000, size: 0x400_0000, is_allocated: false },
        ]
    );
}

#[test]
fn malloc_align() {
    let mut a = heap();
    for align in [1usize, 2, 4, 8, 16, 32, 4096] {
        for _ in 0..100 {
            let p = a.alloc_with_options(1234, align);
            assert!(p != 0);
            assert!(p % align == 0);
        }
    }
    check_heap(&a);
}

#[test]
fn malloc_iterate_free_and_alloc() {
    let mut a = heap();
    for i in 1..1000usize {
        let p = a.alloc_with_options(4 * i, 4);
        assert!(p != 0);
        assert!(p % 4 == 0);
        a.dealloc(p);
    }
    check_heap(&a);
    assert!(a.headers().iter().all(|h| !h.is_allocated));
}

#[test]
fn split_places_region_at_high_end() {
    let mut a = FirstFitAllocator::new();
    a.init_with_mmap(&vec![desc(CONVENTIONAL_MEMORY, 0x10000, 1)]);
    let p = a.alloc_with_options(100, 1);
    assert_eq!(p, 0x10000 + 4096 - 128);
    assert_eq!(
        a.headers().clone(),
        vec![
            Header { addr: 0x10000, size: 4096 - 144, is_allocated: false },
            Header { addr: 0x10000 + 4096 - 144, size: 144, is_allocated: true },
        ]
    );
    let q = a.alloc_with_options(16, 256);
    assert_eq!(q, 0x10f00);
    assert_eq!(
        a.headers().clone(),
        vec![
            Header { addr: 0x10000, size: 0xef0, is_allocated: false },
            Header { addr: 0x10ef0, size: 32, is_allocated: true },
            Header { addr: 0x10f10, size: 0x60, is_allocated: false },
            Header { addr: 0x10000 + 4096 - 144, size: 144, is_allocated: true },
        ]
    );
    a.dealloc(p);
    assert!(!a.headers()[3].is_allocated);
    assert!(a.headers()[1].is_allocated);
    a.dealloc(0x1234);
    assert!(a.headers()[1].is_allocated);
}

#[test]
fn alloc_fails_without_room() {
    let mut a = FirstFitAllocator::new();
    assert_eq!(a.alloc_with_options(16, 16), 0);
    a.init_with_mmap(&vec![desc(CONVENTIONAL_MEMORY, 0x10000, 1)]);
    assert_eq!(a.alloc_with_options(4096, 16), 0);
    assert_eq!(a.alloc_with_options(0, 16), 0);
    assert_eq!(a.alloc_with_options(usize::MAX, 16), 0);
    assert_eq!(a.alloc_with_options(1usize << 33, 16), 0);
    assert_eq!(a.alloc_with_options(16, 8192), 0);
    assert_eq!(a.headers().len(), 1);
    let p = a.alloc_with_options(2048, 16);
    assert!(p != 0);
    assert_eq!(a.alloc_with_options(2048, 16), 0);
}

#[test]
fn header_can_provide_needs_three_headers() {
    let h = Header { addr: 0x1000, size: 112, is_allocated: false };
    assert!(h.can_provide(64, 16));
    assert!(!h.can_provide(65, 16));
    assert!(!h.can_provide(usize::MAX, 16));
    assert_eq!(h.end_addr(), 0x1070);
    assert_eq!(h.size(), 112);
    assert!(!h.is_allocated());
}

#[test]
fn rounds_up_to_power_of_two() {
    assert_eq!(round_up_to_nearest_pow2(1).ok(), Some(1));
    assert_eq!(round_up_to_nearest_pow2(2).ok(), Some(2));
    assert_eq!(round_up_to_nearest_pow2(3).ok(), Some(4));
    assert_eq!(round_up_to_nearest_pow2(1234).ok(), Some(2048));
    assert_eq!(round_up_to_nearest_pow2(4096).ok(), Some(4096));
    assert_eq!(round_up_to_nearest_pow2(4097).ok(), Some(8192));
    assert!(round_up_to_nearest_pow2(0).is_err());
    assert_eq!(round_up_to_nearest_pow2(usize::MAX / 2 + 1).ok(), Some(usize::MAX / 2 + 1));
    assert!(round_up_to_nearest_pow2(usize::MAX / 2 + 2).is_err());
}

#[test]
fn extracts_bit_fields() {
    assert_eq!(extract_bits(0xabcd_1234, 0, 8), 0x34);
    assert_eq!(extract_bits(0xabcd_1234, 8, 8), 0x12);
    assert_eq!(extract_bits(0xabcd_1234, 24, 8), 0xab);
    assert_eq!(extract_bits(0xabcd_1234, 4, 0), 0);
    assert_eq!(extract_bits(0xffff_ffff, 31, 1), 1);
}
