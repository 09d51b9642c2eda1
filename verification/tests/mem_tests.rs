use rpi_kernel::mem::{alloc_size, init};

const HEAP_START: u32 = 0x0010_0000;
const HEAP_END: u32 = 0x0020_0000;

#[test]
fn test_alloc_size() {
    assert_eq!(4, alloc_size(1, 4));
    assert_eq!(4, alloc_size(2, 4));
    assert_eq!(4, alloc_size(4, 4));
    assert_eq!(8, alloc_size(5, 4));
    assert_eq!(8, alloc_size(6, 4));
    assert_eq!(8, alloc_size(8, 4));
    assert_eq!(8, alloc_size(1, 8));
    assert_eq!(8, alloc_size(2, 8));
    assert_eq!(8, alloc_size(4, 8));
}

#[test]
fn test_alloc() {
    {
        let mut a = init(HEAP_START, HEAP_END);
        let addr = a.allocate(4, 8);
        assert_eq!(addr, Some(HEAP_START));
        assert_eq!(HEAP_START + 8, a.start());
    }
    {
        let mut a = init(HEAP_START, HEAP_END);
        let addr = a.allocate(9, 8);
        assert_eq!(addr, Some(HEAP_START));
        assert_eq!(HEAP_START + 16, a.start());
    }
    {
        let mut a = init(HEAP_START, HEAP_END);
        let addr1 = a.allocate(9, 8);
        assert_eq!(addr1, Some(HEAP_START));
        assert_eq!(HEAP_START + 16, a.start());
        let addr2 = a.allocate(9, 8);
        assert_eq!(addr2, Some(HEAP_START + 16));
        assert_eq!(HEAP_START + 32, a.start());
    }
    // the whole heap at once
    {
        let mut a = init(HEAP_START, HEAP_END);
        let size = a.size();
        let addr = a.allocate(size, 8);
        assert_eq!(addr, Some(HEAP_START));
        assert_eq!(HEAP_END, a.start());
    }
    // one byte too many
    {
        let mut a = init(HEAP_START, HEAP_END);
        let size = a.size();
        let addr = a.allocate(size + 1, 8);
        assert_eq!(addr, None);
        assert_eq!(HEAP_START, a.start());
    }
}

#[test]
fn alloc_size_edge_cases() {
    assert_eq!(0, alloc_size(0, 8));
    assert_eq!(7, alloc_size(7, 1));
    assert_eq!(4096, alloc_size(1, 4096));
    assert_eq!(24, alloc_size(17, 12));
}

#[test]
fn init_takes_the_whole_region() {
    let a = init(HEAP_START, HEAP_END);
    assert_eq!(a.start(), HEAP_START);
    assert_eq!(a.size(), (HEAP_END - HEAP_START) as usize);
    let empty = init(HEAP_START, HEAP_START);
    assert_eq!(empty.size(), 0);
}

#[test]
fn refused_request_changes_nothing() {
    let mut a = init(HEAP_START, HEAP_START + 32);
    assert_eq!(a.allocate(20, 4), Some(HEAP_START));
    assert_eq!(a.size(), 12);
    assert_eq!(a.allocate(13, 1), None);
    assert_eq!(a.start(), HEAP_START + 20);
    assert_eq!(a.size(), 12);
}

#[test]
fn heap_end_stays_fixed_and_blocks_do_not_overlap() {
    let mut a = init(HEAP_START, HEAP_END);
    let requests: [(usize, usize); 6] = [(3, 4), (16, 16), (1, 1), (100, 8), (0, 4), (5, 32)];
    let mut blocks: Vec<(u32, u32)> = Vec::new();
    for (size, align) in requests {
        let at = a.allocate(size, align).unwrap();
        assert_eq!(at as usize % align, 0);
        blocks.push((at, at + alloc_size(size, align) as u32));
        assert_eq!(a.start() as usize + a.size(), HEAP_END as usize);
    }
    for i in 0..blocks.len() {
        assert!(blocks[i].0 >= HEAP_START && blocks[i].1 <= HEAP_END);
        for j in (i + 1)..blocks.len() {
            assert!(blocks[i].1 <= blocks[j].0);
        }
    }
}

#[test]
fn dealloc_keeps_the_heap() {
    let mut a = init(HEAP_START, HEAP_END);
    let at = a.allocate(64, 8).unwrap();
    a.dealloc(at, 64, 8);
    assert_eq!(a.start(), HEAP_START + 64);
    assert_eq!(a.allocate(8, 8), Some(HEAP_START + 64));
}

#[test]
fn request_that_does_not_fit_once_rounded_is_refused() {
    let mut a = init(HEAP_START, HEAP_START + 4);
    assert_eq!(a.allocate(3, 8), None);
    assert_eq!(a.start(), HEAP_START);
    assert_eq!(a.size(), 4);
    assert_eq!(a.allocate(3, 4), Some(HEAP_START));
    assert_eq!(a.size(), 0);
    // padding to 8 would not fit, an empty block aligned to 4 does
    assert_eq!(a.allocate(0, 8), None);
    assert_eq!(a.allocate(0, 4), Some(HEAP_START + 4));
}

#[test]
fn blocks_are_aligned_as_asked() {
    let mut a = init(HEAP_START, HEAP_END);
    assert_eq!(a.allocate(4, 4), Some(HEAP_START));
    assert_eq!(a.allocate(8, 8), Some(HEAP_START + 8));
    assert_eq!(a.start(), HEAP_START + 16);
    assert_eq!(a.allocate(1, 1), Some(HEAP_START + 16));
    assert_eq!(a.allocate(32, 64), Some(HEAP_START + 64));
    assert_eq!(a.start(), HEAP_START + 128);
    assert_eq!(a.start() as usize + a.size(), HEAP_END as usize);
}

#[test]
fn unaligned_heap_start_is_padded() {
    let mut a = init(HEAP_START + 3, HEAP_START + 16);
    assert_eq!(a.allocate(4, 4), Some(HEAP_START + 4));
    assert_eq!(a.size(), 8);
    // padding to 16 would leave no room
    assert_eq!(a.allocate(1, 16), None);
    assert_eq!(a.start(), HEAP_START + 8);
    assert_eq!(a.allocate(8, 8), Some(HEAP_START + 8));
    assert_eq!(a.size(), 0);
}
