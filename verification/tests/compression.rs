use bytevm::lens::AllocLen;
use bytevm::tracker::AllocTracker;

#[test]
fn test_alloc_len_compression() {
    let tests: &[u32] = &[
        0,
        1,
        2,
        3,
        4,
        5,
        128,
        255,
        256,
        255 * 2,
        230,
        1024,
        1024 * 1024,
        1024 * 1024 * 1024,
        255 << 30,
        255 << 24,
        255 << 23,
    ];

    for &input_len in tests {
        let compressed = AllocLen::new(input_len);

        assert_eq!(input_len, compressed.len());
    }
}

#[test]
fn test_alloc_len_compression_lossy() {
    let tests: &[(u32, u32)] = &[
        ((254 << 20) + 1, 255 << 20),
        ((254 << 20) + 1, 255 << 20),
        ((254 << 21) + 1, 255 << 21),
        ((254 << 22) + 1, 255 << 22),
        ((254 << 23) + 1, 255 << 23),
        ((254 << 23) + (1 << 22), 255 << 23),
        ((255 << 20) + 1, 256 << 20),
        ((255 << 20) + (1 << 11), 256 << 20),
    ];

    let mut i = 0;
    for &(input_len, expected_len) in tests {
        let compressed = AllocLen::new(input_len);

        assert_eq!(expected_len, compressed.len(), "index: {}", i);

        i += 1;
    }
}

#[test]
fn test_alloc_alignment() {
    let mut data = AllocTracker::new();
    for _i in 0..100 {
        data.alloc_range(AllocLen::new(13));
    }
}

#[test]
fn alloc_range_starts_are_aligned() {
    let mut data = AllocTracker::new();
    for &len in &[1u32, 8, 13, 100, 255, 300, 4096] {
        let range = data.alloc_range(AllocLen::new(len));
        assert_eq!(range.start % 8, 0);
        assert!(range.end - range.start >= len);
    }
}

#[test]
fn compression_rounds_up_never_down() {
    for &len in &[7u32, 9, 100, 257, 1023, 12345, 65537, (200 << 20) + 3] {
        let c = AllocLen::new(len);
        assert!(c.len() >= len);
        assert!(c.len() < 2 * len);
    }
}
