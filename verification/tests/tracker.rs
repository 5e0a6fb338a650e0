use bytevm::errors::IErrorKind;
use bytevm::tracker::{AllocTracker, Ptr};

#[test]
fn double_free_reported() {
    let mut t = AllocTracker::new();
    let (p, _) = t.alloc_heap(100, 7);
    assert!(t.dealloc_heap(p, 9).unwrap() >= 100);
    let e = t.dealloc_heap(p, 10).unwrap_err();
    assert_eq!(e.kind, IErrorKind::DoubleFree);
}

#[test]
fn free_of_stack_memory_reported() {
    let mut t = AllocTracker::new();
    let p = t.alloc_stack(bytevm::lens::AllocLen::new(16), 3);
    let e = t.dealloc_heap(p, 4).unwrap_err();
    assert_eq!(e.kind, IErrorKind::NotHeapMemory);
}

#[test]
fn null_pointer_reported() {
    let mut t = AllocTracker::new();
    let null = Ptr {
        offset: 0,
        alloc_info_id: 0,
    };
    assert_eq!(t.read_u8(null).unwrap_err().kind, IErrorKind::NullPointer);
    assert_eq!(
        t.dealloc_heap(null, 0).unwrap_err().kind,
        IErrorKind::NullPointer
    );
}

#[test]
fn unknown_id_reported() {
    let t = AllocTracker::new();
    let p = Ptr {
        offset: 0,
        alloc_info_id: 5,
    };
    assert_eq!(t.read_u8(p).unwrap_err().kind, IErrorKind::InvalidPointer);
}

#[test]
fn out_of_range_read_reported() {
    let mut t = AllocTracker::new();
    let (p, _) = t.alloc_heap(8, 1);
    // offset 5 + 8 bytes reaches past the 8-byte record
    let past = Ptr {
        offset: 5,
        alloc_info_id: p.alloc_info_id,
    };
    assert_eq!(t.read_u64(past).unwrap_err().kind, IErrorKind::InvalidPointer);
    assert_eq!(
        t.read_bytes(p, 9).unwrap_err().kind,
        IErrorKind::InvalidPointer
    );
    assert!(t.read_bytes(p, 8).is_ok());
}

#[test]
fn dealloc_stack_of_dead_record_is_internal() {
    let mut t = AllocTracker::new();
    let p = t.alloc_stack(bytevm::lens::AllocLen::new(8), 0);
    assert_eq!(t.dealloc_stack(p).unwrap(), 8);
    assert_eq!(t.dealloc_stack(p).unwrap_err().kind, IErrorKind::Internal);
}

#[test]
fn sized_write_read_roundtrip() {
    let mut t = AllocTracker::new();
    let (p, _) = t.alloc_heap(32, 0);
    t.write_u64(p, 0x1122334455667788).unwrap();
    assert_eq!(t.read_u64(p).unwrap(), 0x1122334455667788);
    let q = Ptr {
        offset: 8,
        alloc_info_id: p.alloc_info_id,
    };
    t.write_u32(q, 0xCAFEBABE).unwrap();
    assert_eq!(t.read_u32(q).unwrap(), 0xCAFEBABE);
    t.write_u16(q, 0x1234).unwrap();
    assert_eq!(t.read_u16(q).unwrap(), 0x1234);
    t.write_u8(q, 0x56).unwrap();
    assert_eq!(t.read_u8(q).unwrap(), 0x56);
    // the first word is untouched by writes behind it
    assert_eq!(t.read_u64(p).unwrap(), 0x1122334455667788);
}

#[test]
fn write_bytes_then_read_bytes() {
    let mut t = AllocTracker::new();
    let (p, _) = t.alloc_heap(16, 0);
    t.write_bytes(p, &[1, 2, 3, 4, 5]).unwrap();
    assert_eq!(t.read_bytes(p, 5).unwrap(), &[1, 2, 3, 4, 5]);
    // fresh allocations start zeroed
    let rest = Ptr {
        offset: 5,
        alloc_info_id: p.alloc_info_id,
    };
    assert_eq!(t.read_bytes(rest, 3).unwrap(), &[0, 0, 0]);
}

#[test]
fn memcpy_copies_between_allocations() {
    let mut t = AllocTracker::new();
    let (src, _) = t.alloc_heap(8, 0);
    let (dest, _) = t.alloc_heap(8, 0);
    t.write_bytes(src, &[9, 8, 7, 6]).unwrap();
    t.memcpy(dest, src, 4).unwrap();
    assert_eq!(t.read_bytes(dest, 4).unwrap(), &[9, 8, 7, 6]);
    let e = t.memcpy(dest, src, 9).unwrap_err();
    assert_eq!(e.kind, IErrorKind::InvalidPointer);
}

#[test]
fn exe_words_are_readable_at_manifest() {
    let mut t = AllocTracker::new();
    let ops: Vec<u32> = vec![0xAABBCCDD, 0x00112233, 7];
    t.alloc_exe(&ops);
    assert_eq!(t.manifest.static_exe_end - t.manifest.static_exe_start, 12);
    assert_eq!(t.read_op_at_index(t.manifest.static_exe_start), 0xAABBCCDD);
    assert_eq!(
        t.read_op_at_index(t.manifest.static_exe_start + 4),
        0x00112233
    );
    assert_eq!(t.read_op_at_index(t.manifest.static_exe_start + 8), 7);
}

#[test]
fn record_table_mut_access() {
    let mut t = AllocTracker::new();
    let (p, _) = t.alloc_heap(8, 1);
    let info = t.get_alloc_info(p).unwrap();
    let m = t.get_alloc_info_mut(p).unwrap();
    assert_eq!(*m, info);
    let missing = Ptr {
        offset: 0,
        alloc_info_id: 9,
    };
    assert_eq!(
        t.get_alloc_info_mut(missing).unwrap_err().kind,
        IErrorKind::InvalidPointer
    );
}
