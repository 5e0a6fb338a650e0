use vstd::prelude::*;

verus! {

use crate::arena::{
    ByteStore,
    pod_bytes,
    pod_new,
    pod_len,
    pod_push,
    pod_get,
    pod_set,
    pod_slice,
    read_word16,
    read_word32,
    read_word64,
    write_word16,
    write_word32,
    write_word64,
    word16_at,
    word32_at,
    word64_at,
};
use crate::errors::{IError, IErrorKind};
use crate::lens::{AllocLen, MAX_ALLOC_LEN, fits_compressed};
use vstd::arithmetic::div_mod::lemma_fundamental_div_mod;
use vstd::slice::slice_subrange;

/// A pointer into the arena: a byte offset within one allocation, named by
/// a 1-indexed allocation record id.  Id 0 is the universal null pointer.
/// Offsets are relative to the allocation, never absolute arena addresses.
#[derive(Debug, Clone, Copy, PartialEq, Eq, Structural)]
pub struct Ptr {
    pub offset: u32,
    // This is 1-indexed so that NULL = 0 is always invalid
    pub alloc_info_id: u32,
}

impl Ptr {
    pub open spec fn spec_as_u64(self) -> u64 {
        (self.offset as u64) | ((self.alloc_info_id as u64) << 32)
    }

    pub open spec fn spec_from_u64(v: u64) -> Ptr {
        Ptr { offset: (v & 0xFFFF_FFFF) as u32, alloc_info_id: (v >> 32) as u32 }
    }

    /// Packs the pointer into a register-sized value: offset in the low
    /// half, allocation id in the high half.
    pub fn as_u64(self) -> (r: u64)
        ensures
            r == self.spec_as_u64(),
    {
        (self.offset as u64) | ((self.alloc_info_id as u64) << 32)
    }

    /// Reads a pointer back out of a register-sized value.
    pub fn from_u64(v: u64) -> (r: Ptr)
        ensures
            r == Ptr::spec_from_u64(v),
    {
        proof {
            assert(v as u32 == (v & 0xFFFF_FFFF) as u32) by (bit_vector);
        }
        Ptr { offset: v as u32, alloc_info_id: (v >> 32) as u32 }
    }
}

/// Packing a pointer into a 64-bit value and unpacking it gives the
/// pointer back.
pub proof fn lemma_ptr_pack_roundtrip(p: Ptr)
    ensures
        Ptr::spec_from_u64(p.spec_as_u64()) == p,
{
    let o = p.offset;
    let i = p.alloc_info_id;
    assert((((o as u64) | ((i as u64) << 32)) & 0xFFFF_FFFF) as u32 == o && (((o as u64) | ((
    i as u64) << 32)) >> 32) as u32 == i) by (bit_vector);
}

/// One allocation record: the liveness, origin and extent of one stack,
/// heap or static allocation.  Live records turn dead exactly once and a
/// dead record never comes back.
#[derive(Debug, Clone, Copy, PartialEq, Eq, Structural)]
pub enum AllocInfo {
    StackLive { creation_op: u32, start: u32, len: AllocLen },
    StackDead { creation_op: u32 },
    HeapLive { creation_op: u32, start: u32, len: AllocLen },
    HeapDead { creation_op: u32, dealloc_op: u32 },
    // Executable, not readable or writable through pointers
    StaticExe { start: u32, len: AllocLen },
}

/// The byte bounds of the static executable region, used for every program
/// counter check.
#[derive(Debug, Clone, Copy, PartialEq, Eq, Structural)]
pub struct BinaryManifest {
    pub static_exe_start: u32,
    pub static_exe_end: u32,
}

/// A half-open byte range `[start, end)` of absolute arena positions.
#[derive(Debug, Clone, Copy, PartialEq, Eq, Structural)]
pub struct ByteRange {
    pub start: u32,
    pub end: u32,
}

/// Allocation size rounded up to the 8-byte alignment the arena hands out;
/// an empty request still consumes one alignment unit.
pub open spec fn padded_size(n: int) -> int {
    if n == 0 {
        8
    } else {
        ((n + 7) / 8) * 8
    }
}

/// Padding to 8 bytes yields a multiple of 8 no smaller than the request
/// (and at least one alignment unit), overshooting by less than 8.
pub proof fn lemma_padded_size(n: int)
    requires
        0 <= n,
    ensures
        padded_size(n) % 8 == 0,
        padded_size(n) >= n,
        8 <= padded_size(n),
        padded_size(n) <= n + 8,
{
    if n == 0 {
    } else {
        lemma_fundamental_div_mod(n + 7, 8);
        let q = (n + 7) / 8;
        assert(n + 7 == 8 * q + (n + 7) % 8);
        assert((q * 8) % 8 == 0) by (nonlinear_arith);
    }
}

/// The stored compressed length is exactly the compression of the
/// requested length: never below it, equal whenever the request is
/// representable, under twice the request otherwise, and minimal among
/// all representable values that cover the request.
pub open spec fn stored_len_exact(l: AllocLen, requested: u32) -> bool {
    &&& l.wf()
    &&& l.spec_len() >= requested
    &&& fits_compressed(requested) ==> l.spec_len() == requested
    &&& !fits_compressed(requested) ==> l.spec_len() > requested
    &&& requested > 0 ==> l.spec_len() < 2 * requested
    &&& forall|m: u8, p: u8|
        p <= 24 && requested <= ((m as u32) << (p as u32)) ==> l.spec_len() <= ((#[trigger] ((
        m as u32) << (p as u32))))
}

impl AllocInfo {
    /// A record is well formed for an arena of `arena_len` bytes when its
    /// live range lies inside the arena at an aligned start.
    pub open spec fn wf(self, arena_len: int) -> bool {
        match self {
            AllocInfo::StackLive { start, len, .. } => len.wf() && start % 8 == 0 && start
                + len.spec_len() <= arena_len,
            AllocInfo::HeapLive { start, len, .. } => len.wf() && start % 8 == 0 && start
                + len.spec_len() <= arena_len,
            AllocInfo::StaticExe { start, len } => len.wf() && start % 8 == 0 && start
                + len.spec_len() <= arena_len,
            AllocInfo::StackDead { .. } => true,
            AllocInfo::HeapDead { .. } => true,
        }
    }

    /// The start and byte length of a live record; dead records have no
    /// range and poison any access with `InvalidPointer`.
    pub open spec fn spec_range(self) -> Result<(u32, u32), IError> {
        match self {
            AllocInfo::StackLive { start, len, .. } => Ok((start, len.spec_len())),
            AllocInfo::HeapLive { start, len, .. } => Ok((start, len.spec_len())),
            AllocInfo::StaticExe { start, len } => Ok((start, len.spec_len())),
            AllocInfo::StackDead { .. } => Err(IError { kind: IErrorKind::InvalidPointer }),
            AllocInfo::HeapDead { .. } => Err(IError { kind: IErrorKind::InvalidPointer }),
        }
    }

    pub fn get_range(self) -> (r: Result<(u32, u32), IError>)
        requires
            self.wf_any(),
        ensures
            r == self.spec_range(),
    {
        match self {
            AllocInfo::StackLive { start, len, .. } => Ok((start, len.len())),
            AllocInfo::HeapLive { start, len, .. } => Ok((start, len.len())),
            AllocInfo::StaticExe { start, len } => Ok((start, len.len())),
            AllocInfo::StackDead { .. } => Err(IError::new(IErrorKind::InvalidPointer)),
            AllocInfo::HeapDead { .. } => Err(IError::new(IErrorKind::InvalidPointer)),
        }
    }

    /// The record's stored compressed length is well formed; implied by
    /// `wf` for any arena.
    pub open spec fn wf_any(self) -> bool {
        match self {
            AllocInfo::StackLive { len, .. } => len.wf(),
            AllocInfo::HeapLive { len, .. } => len.wf(),
            AllocInfo::StaticExe { len, .. } => len.wf(),
            AllocInfo::StackDead { .. } => true,
            AllocInfo::HeapDead { .. } => true,
        }
    }
}

/// Resolves a pointer's id against the record table: 0 is null, ids past
/// the table are invalid, anything else names the record `id - 1`.
pub open spec fn spec_get_alloc_info(infos: Seq<AllocInfo>, ptr: Ptr) -> Result<AllocInfo, IError> {
    if ptr.alloc_info_id == 0 {
        Err(IError { kind: IErrorKind::NullPointer })
    } else if ptr.alloc_info_id > infos.len() {
        Err(IError { kind: IErrorKind::InvalidPointer })
    } else {
        Ok(infos[ptr.alloc_info_id - 1])
    }
}

/// The absolute arena byte range a pointer access of `len` bytes touches,
/// or the error it fails with: null and unknown ids, dead records, and
/// ranges reaching past the record's length are all rejected.
pub open spec fn spec_get_range(infos: Seq<AllocInfo>, ptr: Ptr, len: u32) -> Result<
    ByteRange,
    IError,
> {
    match spec_get_alloc_info(infos, ptr) {
        Err(e) => Err(e),
        Ok(info) => match info.spec_range() {
            Err(e) => Err(e),
            Ok((start, alloc_len)) => if ptr.offset + len > alloc_len {
                Err(IError { kind: IErrorKind::InvalidPointer })
            } else {
                Ok(
                    ByteRange {
                        start: (start + ptr.offset) as u32,
                        end: (start + ptr.offset + len) as u32,
                    },
                )
            },
        },
    }
}

/// The allocation tracker: the single growable byte arena, the table of
/// allocation records, and the manifest of the executable region.  Arena
/// bytes never move once written; allocations only ever append.
pub struct AllocTracker {
    pub bytes: ByteStore,
    pub alloc_info: Vec<AllocInfo>,
    pub manifest: BinaryManifest,
}

impl AllocTracker {
    /// The arena contents.
    pub open spec fn arena(self) -> Seq<u8> {
        pod_bytes(self.bytes)
    }

    /// Tracker invariant: the arena stays 8-byte aligned in total size and
    /// addressable by `u32`, each record costs at least 8 arena bytes (so
    /// record ids fit comfortably), every record is well formed, and the
    /// manifest bounds lie inside the arena.
    pub open spec fn wf(self) -> bool {
        &&& self.arena().len() % 8 == 0
        &&& self.arena().len() <= 0xFFFF_FFF8
        &&& 8 * self.alloc_info@.len() <= self.arena().len()
        &&& forall|i: int|
            0 <= i < self.alloc_info@.len() ==> (#[trigger] self.alloc_info@[i]).wf(
                self.arena().len() as int,
            )
        &&& self.manifest.static_exe_start % 4 == 0
        &&& self.manifest.static_exe_end % 4 == 0
        &&& self.manifest.static_exe_start <= self.manifest.static_exe_end
        &&& self.manifest.static_exe_end <= self.arena().len()
    }

    /// An empty tracker: no arena bytes, no records, an empty manifest.
    pub fn new() -> (r: Self)
        ensures
            r.wf(),
            r.arena() == Seq::<u8>::empty(),
            r.alloc_info@ == Seq::<AllocInfo>::empty(),
            r.manifest == (BinaryManifest { static_exe_start: 0, static_exe_end: 0 }),
    {
        AllocTracker {
            bytes: pod_new(),
            alloc_info: Vec::new(),
            manifest: BinaryManifest { static_exe_start: 0, static_exe_end: 0 },
        }
    }

    /// The current arena size in bytes.
    pub fn arena_len(&self) -> (r: u32)
        requires
            self.wf(),
        ensures
            r == self.arena().len(),
    {
        pod_len(&self.bytes) as u32
    }

    /// Appends `len` bytes, rounded up to 8-byte alignment, of zeroed
    /// storage and returns the byte range; the start of every range handed
    /// out is divisible by 8.
    pub fn alloc_range(&mut self, len: AllocLen) -> (r: ByteRange)
        requires
            old(self).wf(),
            len.wf(),
            old(self).arena().len() + padded_size(len.spec_len() as int) <= 0xFFFF_FFF8,
        ensures
            final(self).wf(),
            r.start % 8 == 0,
            r.start == old(self).arena().len(),
            r.end == final(self).arena().len(),
            r.end - r.start == padded_size(len.spec_len() as int),
            len.spec_len() <= r.end - r.start,
            final(self).arena().len() == old(self).arena().len() + padded_size(
                len.spec_len() as int,
            ),
            forall|i: int|
                0 <= i < old(self).arena().len() ==> final(self).arena()[i] == old(self).arena()[i],
            forall|i: int|
                old(self).arena().len() <= i < final(self).arena().len() ==> final(self).arena()[i]
                    == 0,
            final(self).alloc_info@ == old(self).alloc_info@,
            final(self).manifest == old(self).manifest,
    {
        proof {
            lemma_padded_size(len.spec_len() as int);
        }
        let start = pod_len(&self.bytes) as u32;
        let lossy_len = len.len();
        let padded: u32 = if lossy_len == 0 {
            8
        } else {
            ((lossy_len - 1) / 8) * 8 + 8
        };
        proof {
            if len.spec_len() != 0 {
                let n = len.spec_len() as int;
                lemma_fundamental_div_mod(n - 1, 8);
                lemma_fundamental_div_mod(n + 7, 8);
                assert(((n - 1) / 8) * 8 + 8 == ((n + 7) / 8) * 8) by (nonlinear_arith)
                    requires
                        1 <= n,
                        n - 1 == 8 * ((n - 1) / 8) + (n - 1) % 8,
                        n + 7 == 8 * ((n + 7) / 8) + (n + 7) % 8,
                        0 <= (n - 1) % 8 < 8,
                        0 <= (n + 7) % 8 < 8,
                ;
            }
            assert(padded == padded_size(len.spec_len() as int));
        }
        let mut i: u32 = 0;
        while i < padded
            invariant
                i <= padded,
                pod_bytes(self.bytes).len() == old(self).arena().len() + i,
                forall|j: int|
                    0 <= j < old(self).arena().len() ==> pod_bytes(self.bytes)[j] == old(self).arena()[j],
                forall|j: int|
                    old(self).arena().len() <= j < pod_bytes(self.bytes).len() ==> pod_bytes(
                        self.bytes,
                    )[j] == 0,
                self.alloc_info@ == old(self).alloc_info@,
                self.manifest == old(self).manifest,
            decreases padded - i,
        {
            pod_push(&mut self.bytes, 0);
            i = i + 1;
        }
        ByteRange { start, end: start + padded }
    }

    /// Looks a pointer's record up, failing on null and unknown ids.
    pub fn get_alloc_info(&self, ptr: Ptr) -> (r: Result<AllocInfo, IError>)
        requires
            self.wf(),
        ensures
            r == spec_get_alloc_info(self.alloc_info@, ptr),
    {
        if ptr.alloc_info_id == 0 {
            return Err(IError::new(IErrorKind::NullPointer));
        }
        let idx = ptr.alloc_info_id as usize;
        if idx > self.alloc_info.len() {
            return Err(IError::new(IErrorKind::InvalidPointer));
        }
        Ok(self.alloc_info[idx - 1])
    }

    /// Looks a pointer's record up for mutation.  On success the caller
    /// holds the one live reference into the record table: the table ends
    /// up updated at exactly that record with whatever is written through
    /// the reference, and everything else is untouched.
    pub fn get_alloc_info_mut(&mut self, ptr: Ptr) -> (r: Result<&mut AllocInfo, IError>)
        requires
            old(self).wf(),
        ensures
            spec_get_alloc_info(old(self).alloc_info@, ptr) is Err ==> (r matches Err(e)
                && spec_get_alloc_info(old(self).alloc_info@, ptr) == Err::<AllocInfo, IError>(e)
                && *final(self) == *old(self)),
            spec_get_alloc_info(old(self).alloc_info@, ptr) is Ok ==> (r matches Ok(m) && *m
                == old(self).alloc_info@[ptr.alloc_info_id - 1] && final(self).alloc_info@ == old(self).alloc_info@.update(ptr.alloc_info_id - 1, *final(m)) && final(self).bytes == old(self).bytes && final(self).manifest == old(self).manifest),
    {
        if ptr.alloc_info_id == 0 {
            return Err(IError::new(IErrorKind::NullPointer));
        }
        let idx = ptr.alloc_info_id as usize;
        if idx > self.alloc_info.len() {
            return Err(IError::new(IErrorKind::InvalidPointer));
        }
        Ok(vstd::std_specs::vec::vec_index_mut(&mut self.alloc_info, idx - 1))
    }

    /// Bounds-checks an access of `len` bytes through `ptr` and returns
    /// the absolute arena range it may touch.  Reading or writing past the
    /// record's length is `InvalidPointer`, as is any dead record.
    pub fn get_range(&self, ptr: Ptr, len: u32) -> (r: Result<ByteRange, IError>)
        requires
            self.wf(),
        ensures
            r == spec_get_range(self.alloc_info@, ptr, len),
            r matches Ok(br) ==> br.start <= br.end && br.end <= self.arena().len() && br.end
                - br.start == len,
    {
        let info = match self.get_alloc_info(ptr) {
            Ok(info) => info,
            Err(e) => {
                return Err(e);
            },
        };
        let (start, alloc_len) = match info.get_range() {
            Ok(r) => r,
            Err(e) => {
                return Err(e);
            },
        };
        if (ptr.offset as u64) + (len as u64) > (alloc_len as u64) {
            return Err(IError::new(IErrorKind::InvalidPointer));
        }
        Ok(ByteRange { start: start + ptr.offset, end: start + ptr.offset + len })
    }

    /// Creates a live stack allocation of the given compressed length and
    /// returns a pointer to its first byte.  The new record is appended,
    /// so its id is the new table length.
    pub fn alloc_stack(&mut self, len: AllocLen, creation_op: u32) -> (r: Ptr)
        requires
            old(self).wf(),
            len.wf(),
            old(self).arena().len() + padded_size(len.spec_len() as int) <= 0xFFFF_FFF8,
        ensures
            final(self).wf(),
            r.offset == 0,
            r.alloc_info_id == old(self).alloc_info@.len() + 1,
            final(self).alloc_info@ == old(self).alloc_info@.push(
                AllocInfo::StackLive {
                    creation_op,
                    start: old(self).arena().len() as u32,
                    len,
                },
            ),
            final(self).arena().len() == old(self).arena().len() + padded_size(
                len.spec_len() as int,
            ),
            forall|i: int|
                0 <= i < old(self).arena().len() ==> final(self).arena()[i] == old(self).arena()[i],
            forall|i: int|
                old(self).arena().len() <= i < final(self).arena().len() ==> final(self).arena()[i]
                    == 0,
            final(self).manifest == old(self).manifest,
    {
        let range = self.alloc_range(len);
        let start = range.start;
        let info = AllocInfo::StackLive { creation_op, start, len };
        self.alloc_info.push(info);
        let alloc_info_id = self.alloc_info.len() as u32;
        proof {
            lemma_padded_size(len.spec_len() as int);
        }
        Ptr { offset: 0, alloc_info_id }
    }

    /// Creates a live heap allocation of (at least) `len` bytes; returns a
    /// pointer to it and the padded size that was reserved.
    pub fn alloc_heap(&mut self, len: u32, creation_op: u32) -> (r: (Ptr, u32))
        requires
            old(self).wf(),
            len <= MAX_ALLOC_LEN,
            old(self).arena().len() + 2 * (len as int) + 8 <= 0xFFFF_FFF8,
        ensures
            final(self).wf(),
            r.0.offset == 0,
            r.0.alloc_info_id == old(self).alloc_info@.len() + 1,
            final(self).alloc_info@.len() == old(self).alloc_info@.len() + 1,
            final(self).alloc_info@ == old(self).alloc_info@.push(
                final(self).alloc_info@.last(),
            ),
            final(self).alloc_info@.last() matches AllocInfo::HeapLive {
                creation_op: c,
                start,
                len: l,
            } && c == creation_op && start == old(self).arena().len() && stored_len_exact(l, len)
                && r.1 == padded_size(l.spec_len() as int),
            final(self).arena().len() == old(self).arena().len() + r.1,
            r.1 >= len,
            forall|i: int|
                0 <= i < old(self).arena().len() ==> final(self).arena()[i] == old(self).arena()[i],
            forall|i: int|
                old(self).arena().len() <= i < final(self).arena().len() ==> final(self).arena()[i]
                    == 0,
            final(self).manifest == old(self).manifest,
    {
        let alloc_len = AllocLen::new(len);
        proof {
            lemma_padded_size(alloc_len.spec_len() as int);
        }
        let range = self.alloc_range(alloc_len);
        let start = range.start;
        let info = AllocInfo::HeapLive { creation_op, start, len: alloc_len };
        self.alloc_info.push(info);
        let alloc_info_id = self.alloc_info.len() as u32;
        let ptr = Ptr { offset: 0, alloc_info_id };
        (ptr, range.end - range.start)
    }

    /// Creates a static allocation of (at least) `len` bytes; returns a
    /// pointer to it and the padded size that was reserved.
    pub fn alloc_static(&mut self, len: u32) -> (r: (Ptr, u32))
        requires
            old(self).wf(),
            len <= MAX_ALLOC_LEN,
            old(self).arena().len() + 2 * (len as int) + 8 <= 0xFFFF_FFF8,
        ensures
            final(self).wf(),
            r.0.offset == 0,
            r.0.alloc_info_id == old(self).alloc_info@.len() + 1,
            final(self).alloc_info@.len() == old(self).alloc_info@.len() + 1,
            final(self).alloc_info@ == old(self).alloc_info@.push(
                final(self).alloc_info@.last(),
            ),
            final(self).alloc_info@.last() matches AllocInfo::StaticExe {
                start,
                len: l,
            } && start == old(self).arena().len() && stored_len_exact(l, len) && r.1 == padded_size(
                l.spec_len() as int,
            ),
            final(self).arena().len() == old(self).arena().len() + r.1,
            r.1 >= len,
            forall|i: int|
                0 <= i < old(self).arena().len() ==> final(self).arena()[i] == old(self).arena()[i],
            forall|i: int|
                old(self).arena().len() <= i < final(self).arena().len() ==> final(self).arena()[i]
                    == 0,
            final(self).manifest == old(self).manifest,
    {
        let alloc_len = AllocLen::new(len);
        proof {
            lemma_padded_size(alloc_len.spec_len() as int);
        }
        let range = self.alloc_range(alloc_len);
        let start = range.start;
        let info = AllocInfo::StaticExe { start, len: alloc_len };
        self.alloc_info.push(info);
        let alloc_info_id = self.alloc_info.len() as u32;
        let ptr = Ptr { offset: 0, alloc_info_id };
        (ptr, range.end - range.start)
    }

    /// Loads a program image: reserves an executable region, copies the
    /// instruction words into it, records a `StaticExe` entry, and points
    /// the manifest at exactly the words that were written (the
    /// allocation itself may be padded further).
    pub fn alloc_exe(&mut self, ops: &Vec<u32>) -> (r: Ptr)
        requires
            old(self).wf(),
            4 * ops@.len() <= MAX_ALLOC_LEN,
            old(self).arena().len() + 8 * ops@.len() + 8 <= 0xFFFF_FFF8,
        ensures
            final(self).wf(),
            r.offset == 0,
            r.alloc_info_id == old(self).alloc_info@.len() + 1,
            final(self).manifest.static_exe_start == old(self).arena().len(),
            final(self).manifest.static_exe_end == old(self).arena().len() + 4 * ops@.len(),
            forall|i: int|
                0 <= i < ops@.len() ==> word32_at(
                    final(self).arena(),
                    final(self).manifest.static_exe_start + 4 * i,
                ) == ops@[i],
            forall|i: int|
                0 <= i < old(self).arena().len() ==> final(self).arena()[i] == old(self).arena()[i],
            final(self).arena().len() <= old(self).arena().len() + 8 * ops@.len() + 8,
            final(self).alloc_info@ == old(self).alloc_info@.push(final(self).alloc_info@.last()),
            final(self).alloc_info@.last() matches AllocInfo::StaticExe {
                start,
                len: l,
            } && start == old(self).arena().len() && stored_len_exact(l, (4 * ops@.len()) as u32),
    {
        let op_count = ops.len() as u32;
        let byte_count = op_count * 4;
        let alloc_len = AllocLen::new(byte_count);
        proof {
            lemma_padded_size(alloc_len.spec_len() as int);
        }
        let range = self.alloc_range(alloc_len);
        let start = range.start;
        let info = AllocInfo::StaticExe { start, len: alloc_len };
        self.alloc_info.push(info);
        let alloc_info_id = self.alloc_info.len() as u32;

        let ghost mid_arena = pod_bytes(self.bytes);
        let mut i: u32 = 0;
        while i < op_count
            invariant
                i <= op_count,
                op_count == ops@.len(),
                byte_count == 4 * op_count,
                start + byte_count <= pod_bytes(self.bytes).len(),
                pod_bytes(self.bytes).len() == mid_arena.len(),
                pod_bytes(self.bytes).len() <= 0xFFFF_FFF8,
                forall|j: int|
                    0 <= j < mid_arena.len() && !(start <= j < start + 4 * i) ==> pod_bytes(
                        self.bytes,
                    )[j] == mid_arena[j],
                forall|j: int|
                    0 <= j < i ==> word32_at(pod_bytes(self.bytes), start + 4 * j) == ops@[j],
                self.alloc_info@ == old(self).alloc_info@.push(info),
                self.manifest == old(self).manifest,
            decreases op_count - i,
        {
            let ghost pre = pod_bytes(self.bytes);
            write_word32(&mut self.bytes, start + 4 * i, ops[i as usize]);
            proof {
                assert forall|j: int| 0 <= j < i implies word32_at(
                    pod_bytes(self.bytes),
                    start + 4 * j,
                ) == ops@[j] by {
                    assert(word32_at(pre, start + 4 * j) == ops@[j]);
                }
            }
            i = i + 1;
        }
        self.manifest = BinaryManifest {
            static_exe_start: start,
            static_exe_end: start + byte_count,
        };
        Ptr { offset: 0, alloc_info_id }
    }

    /// Reads the 32-bit instruction word at an absolute arena index.
    pub fn read_op_at_index(&self, index: u32) -> (r: u32)
        requires
            self.wf(),
            index + 4 <= self.arena().len(),
        ensures
            r == word32_at(self.arena(), index as int),
    {
        read_word32(&self.bytes, index)
    }
}

/// The result of releasing a stack allocation: only a live stack record
/// can be released (yielding its byte length); everything else is an
/// internal error, since the stack pointer map should never hold it.
pub open spec fn spec_dealloc_stack_outcome(infos: Seq<AllocInfo>, ptr: Ptr) -> Result<
    u32,
    IError,
> {
    match spec_get_alloc_info(infos, ptr) {
        Err(e) => Err(e),
        Ok(info) => match info {
            AllocInfo::StackLive { len, .. } => Ok(len.spec_len()),
            _ => Err(IError { kind: IErrorKind::Internal }),
        },
    }
}

/// The record table after releasing a stack allocation: the record turns
/// `StackDead`, keeping its creator; failed releases change nothing.
pub open spec fn spec_dealloc_stack_infos(infos: Seq<AllocInfo>, ptr: Ptr) -> Seq<AllocInfo> {
    match spec_get_alloc_info(infos, ptr) {
        Ok(AllocInfo::StackLive { creation_op, .. }) => infos.update(
            ptr.alloc_info_id - 1,
            AllocInfo::StackDead { creation_op },
        ),
        _ => infos,
    }
}

/// The result of freeing a heap allocation: a live heap record frees to
/// its byte length, an already dead one is a double free, and any other
/// record is not heap memory.
pub open spec fn spec_dealloc_heap_outcome(infos: Seq<AllocInfo>, ptr: Ptr) -> Result<u32, IError> {
    match spec_get_alloc_info(infos, ptr) {
        Err(e) => Err(e),
        Ok(info) => match info {
            AllocInfo::HeapLive { len, .. } => Ok(len.spec_len()),
            AllocInfo::HeapDead { .. } => Err(IError { kind: IErrorKind::DoubleFree }),
            _ => Err(IError { kind: IErrorKind::NotHeapMemory }),
        },
    }
}

/// The record table after freeing a heap allocation: the record turns
/// `HeapDead`, keeping its creator and remembering the freeing operation;
/// failed frees change nothing.
pub open spec fn spec_dealloc_heap_infos(
    infos: Seq<AllocInfo>,
    ptr: Ptr,
    dealloc_op: u32,
) -> Seq<AllocInfo> {
    match spec_get_alloc_info(infos, ptr) {
        Ok(AllocInfo::HeapLive { creation_op, .. }) => infos.update(
            ptr.alloc_info_id - 1,
            AllocInfo::HeapDead { creation_op, dealloc_op },
        ),
        _ => infos,
    }
}

/// Freeing the same heap pointer twice always yields `DoubleFree` on the
/// second call: after a successful free the record is `HeapDead`, and a
/// free of a `HeapDead` record reports exactly `DoubleFree`.
pub proof fn lemma_heap_double_free(infos: Seq<AllocInfo>, ptr: Ptr, dealloc_op: u32)
    requires
        spec_dealloc_heap_outcome(infos, ptr) is Ok,
    ensures
        spec_dealloc_heap_outcome(spec_dealloc_heap_infos(infos, ptr, dealloc_op), ptr)
            == Err::<u32, IError>(IError { kind: IErrorKind::DoubleFree }),
{
}

impl AllocTracker {
    /// Releases a live stack allocation, marking its record `StackDead`
    /// and returning how many bytes it spanned.
    pub fn dealloc_stack(&mut self, ptr: Ptr) -> (r: Result<u32, IError>)
        requires
            old(self).wf(),
        ensures
            final(self).wf(),
            r == spec_dealloc_stack_outcome(old(self).alloc_info@, ptr),
            final(self).alloc_info@ == spec_dealloc_stack_infos(old(self).alloc_info@, ptr),
            final(self).arena() == old(self).arena(),
            final(self).manifest == old(self).manifest,
    {
        let info = match self.get_alloc_info(ptr) {
            Ok(i) => i,
            Err(e) => {
                return Err(e);
            },
        };
        match info {
            AllocInfo::StackLive { creation_op, start, len } => {
                let idx = (ptr.alloc_info_id - 1) as usize;
                self.alloc_info[idx] = AllocInfo::StackDead { creation_op };
                Ok(len.len())
            },
            _ => Err(IError::new(IErrorKind::Internal)),
        }
    }

    /// Frees a live heap allocation, marking its record `HeapDead` (with
    /// the freeing operation for provenance) and returning how many bytes
    /// it spanned.  Freeing a dead heap record is `DoubleFree`; freeing
    /// anything else is `NotHeapMemory`.
    pub fn dealloc_heap(&mut self, ptr: Ptr, dealloc_op: u32) -> (r: Result<u32, IError>)
        requires
            old(self).wf(),
        ensures
            final(self).wf(),
            r == spec_dealloc_heap_outcome(old(self).alloc_info@, ptr),
            final(self).alloc_info@ == spec_dealloc_heap_infos(
                old(self).alloc_info@,
                ptr,
                dealloc_op,
            ),
            final(self).arena() == old(self).arena(),
            final(self).manifest == old(self).manifest,
    {
        let info = match self.get_alloc_info(ptr) {
            Ok(i) => i,
            Err(e) => {
                return Err(e);
            },
        };
        match info {
            AllocInfo::HeapLive { creation_op, start, len } => {
                let idx = (ptr.alloc_info_id - 1) as usize;
                self.alloc_info[idx] = AllocInfo::HeapDead { creation_op, dealloc_op };
                Ok(len.len())
            },
            AllocInfo::HeapDead { .. } => Err(IError::new(IErrorKind::DoubleFree)),
            _ => Err(IError::new(IErrorKind::NotHeapMemory)),
        }
    }
}

impl AllocTracker {
    /// Borrows `len` bytes through a pointer, after the bounds check.
    pub fn read_bytes(&self, ptr: Ptr, len: u32) -> (r: Result<&[u8], IError>)
        requires
            self.wf(),
        ensures
            (match spec_get_range(self.alloc_info@, ptr, len) {
                Err(e) => r matches Err(e2) && e2 == e,
                Ok(br) => r matches Ok(s) && s@ == self.arena().subrange(
                    br.start as int,
                    br.end as int,
                ),
            }),
    {
        let range = match self.get_range(ptr, len) {
            Ok(r) => r,
            Err(e) => {
                return Err(e);
            },
        };
        let all = pod_slice(&self.bytes);
        Ok(slice_subrange(all, range.start as usize, range.end as usize))
    }

    /// Copies the given bytes through a pointer, after the bounds check.
    pub fn write_bytes(&mut self, ptr: Ptr, bytes: &[u8]) -> (r: Result<(), IError>)
        requires
            old(self).wf(),
            bytes@.len() <= 0xFFFF_FFFF,
        ensures
            final(self).wf(),
            final(self).alloc_info@ == old(self).alloc_info@,
            final(self).manifest == old(self).manifest,
            final(self).arena().len() == old(self).arena().len(),
            (match spec_get_range(old(self).alloc_info@, ptr, bytes@.len() as u32) {
                Err(e) => r matches Err(e2) && e2 == e && final(self).arena() == old(self).arena(),
                Ok(br) => r is Ok && (forall|j: int|
                    0 <= j < old(self).arena().len() && !(br.start <= j < br.end) ==> final(self).arena()[j] == old(self).arena()[j]) && (forall|k: int|
                    0 <= k < bytes@.len() ==> final(self).arena()[br.start + k] == bytes@[k]),
            }),
    {
        let len = bytes.len() as u32;
        let range = match self.get_range(ptr, len) {
            Ok(r) => r,
            Err(e) => {
                return Err(e);
            },
        };
        let mut k: u32 = 0;
        while k < len
            invariant
                k <= len,
                len == bytes@.len(),
                range.start + len <= pod_bytes(self.bytes).len(),
                pod_bytes(self.bytes).len() <= 0xFFFF_FFF8,
                pod_bytes(self.bytes).len() == old(self).arena().len(),
                forall|j: int|
                    0 <= j < old(self).arena().len() && !(range.start <= j < range.start + k)
                        ==> pod_bytes(self.bytes)[j] == old(self).arena()[j],
                forall|j: int|
                    0 <= j < k ==> pod_bytes(self.bytes)[range.start + j] == bytes@[j],
                self.alloc_info@ == old(self).alloc_info@,
                self.manifest == old(self).manifest,
            decreases len - k,
        {
            let b = bytes[k as usize];
            pod_set(&mut self.bytes, range.start + k, b);
            k = k + 1;
        }
        Ok(())
    }

    /// Copies `len` bytes from one pointer to another, validating both
    /// ranges first; overlapping ranges behave as if the source were read
    /// in full before the destination is written.
    pub fn memcpy(&mut self, dest: Ptr, src: Ptr, len: u32) -> (r: Result<(), IError>)
        requires
            old(self).wf(),
        ensures
            final(self).wf(),
            final(self).alloc_info@ == old(self).alloc_info@,
            final(self).manifest == old(self).manifest,
            final(self).arena().len() == old(self).arena().len(),
            (match spec_get_range(old(self).alloc_info@, dest, len) {
                Err(e) => r matches Err(e2) && e2 == e && final(self).arena() == old(self).arena(),
                Ok(dbr) => (match spec_get_range(old(self).alloc_info@, src, len) {
                    Err(e) => r matches Err(e2) && e2 == e && final(self).arena() == old(self).arena(),
                    Ok(sbr) => r is Ok && (forall|j: int|
                        0 <= j < old(self).arena().len() && !(dbr.start <= j < dbr.end)
                            ==> #[trigger] final(self).arena()[j] == old(self).arena()[j]) && (
                    forall|k: int|
                        0 <= k < len ==> #[trigger] final(self).arena()[dbr.start + k] == old(
                        self).arena()[sbr.start + k]),
                }),
            }),
    {
        let dest_range = match self.get_range(dest, len) {
            Ok(r) => r,
            Err(e) => {
                return Err(e);
            },
        };
        let src_range = match self.get_range(src, len) {
            Ok(r) => r,
            Err(e) => {
                return Err(e);
            },
        };
        let mut tmp: Vec<u8> = Vec::new();
        let mut k: u32 = 0;
        while k < len
            invariant
                k <= len,
                src_range.start + len <= pod_bytes(self.bytes).len(),
                pod_bytes(self.bytes).len() <= 0xFFFF_FFF8,
                pod_bytes(self.bytes) == old(self).arena(),
                self.alloc_info@ == old(self).alloc_info@,
                self.manifest == old(self).manifest,
                tmp@.len() == k,
                forall|j: int| 0 <= j < k ==> tmp@[j] == pod_bytes(self.bytes)[src_range.start + j],
            decreases len - k,
        {
            let b = pod_get(&self.bytes, src_range.start + k);
            tmp.push(b);
            k = k + 1;
        }
        let mut k: u32 = 0;
        while k < len
            invariant
                k <= len,
                len == tmp@.len(),
                dest_range.start + len <= pod_bytes(self.bytes).len(),
                src_range.start + len <= old(self).arena().len(),
                pod_bytes(self.bytes).len() <= 0xFFFF_FFF8,
                pod_bytes(self.bytes).len() == old(self).arena().len(),
                forall|j: int|
                    0 <= j < old(self).arena().len() && !(dest_range.start <= j < dest_range.start
                        + k) ==> pod_bytes(self.bytes)[j] == old(self).arena()[j],
                forall|j: int|
                    0 <= j < k ==> pod_bytes(self.bytes)[dest_range.start + j] == tmp@[j],
                forall|j: int| 0 <= j < len ==> tmp@[j] == old(self).arena()[src_range.start + j],
                self.alloc_info@ == old(self).alloc_info@,
                self.manifest == old(self).manifest,
            decreases len - k,
        {
            let b = tmp[k as usize];
            pod_set(&mut self.bytes, dest_range.start + k, b);
            k = k + 1;
        }
        proof {
            assert forall|kk: int| 0 <= kk < len implies #[trigger] pod_bytes(self.bytes)[
                dest_range.start + kk] == old(self).arena()[src_range.start + kk] by {
                assert(pod_bytes(self.bytes)[dest_range.start + kk] == tmp@[kk]);
            }
        }
        Ok(())
    }

    /// Reads one byte through a pointer.
    pub fn read_u8(&self, ptr: Ptr) -> (r: Result<u8, IError>)
        requires
            self.wf(),
        ensures
            (match spec_get_range(self.alloc_info@, ptr, 1) {
                Err(e) => r == Err::<u8, IError>(e),
                Ok(br) => r == Ok::<u8, IError>(self.arena()[br.start as int]),
            }),
    {
        let range = match self.get_range(ptr, 1) {
            Ok(r) => r,
            Err(e) => {
                return Err(e);
            },
        };
        Ok(pod_get(&self.bytes, range.start))
    }

    /// Reads a little-endian 16-bit value through a pointer.
    pub fn read_u16(&self, ptr: Ptr) -> (r: Result<u16, IError>)
        requires
            self.wf(),
        ensures
            (match spec_get_range(self.alloc_info@, ptr, 2) {
                Err(e) => r == Err::<u16, IError>(e),
                Ok(br) => r == Ok::<u16, IError>(word16_at(self.arena(), br.start as int)),
            }),
    {
        let range = match self.get_range(ptr, 2) {
            Ok(r) => r,
            Err(e) => {
                return Err(e);
            },
        };
        Ok(read_word16(&self.bytes, range.start))
    }

    /// Reads a little-endian 32-bit value through a pointer.
    pub fn read_u32(&self, ptr: Ptr) -> (r: Result<u32, IError>)
        requires
            self.wf(),
        ensures
            (match spec_get_range(self.alloc_info@, ptr, 4) {
                Err(e) => r == Err::<u32, IError>(e),
                Ok(br) => r == Ok::<u32, IError>(word32_at(self.arena(), br.start as int)),
            }),
    {
        let range = match self.get_range(ptr, 4) {
            Ok(r) => r,
            Err(e) => {
                return Err(e);
            },
        };
        Ok(read_word32(&self.bytes, range.start))
    }

    /// Reads a little-endian 64-bit value through a pointer.
    pub fn read_u64(&self, ptr: Ptr) -> (r: Result<u64, IError>)
        requires
            self.wf(),
        ensures
            (match spec_get_range(self.alloc_info@, ptr, 8) {
                Err(e) => r == Err::<u64, IError>(e),
                Ok(br) => r == Ok::<u64, IError>(word64_at(self.arena(), br.start as int)),
            }),
    {
        let range = match self.get_range(ptr, 8) {
            Ok(r) => r,
            Err(e) => {
                return Err(e);
            },
        };
        Ok(read_word64(&self.bytes, range.start))
    }

    /// Writes one byte through a pointer.
    pub fn write_u8(&mut self, ptr: Ptr, value: u8) -> (r: Result<(), IError>)
        requires
            old(self).wf(),
        ensures
            final(self).wf(),
            final(self).alloc_info@ == old(self).alloc_info@,
            final(self).manifest == old(self).manifest,
            final(self).arena().len() == old(self).arena().len(),
            (match spec_get_range(old(self).alloc_info@, ptr, 1) {
                Err(e) => r matches Err(e2) && e2 == e && final(self).arena() == old(self).arena(),
                Ok(br) => r is Ok && (forall|j: int|
                    0 <= j < old(self).arena().len() && j != br.start ==> final(self).arena()[j]
                        == old(self).arena()[j]) && final(self).arena()[br.start as int] == value,
            }),
    {
        let range = match self.get_range(ptr, 1) {
            Ok(r) => r,
            Err(e) => {
                return Err(e);
            },
        };
        pod_set(&mut self.bytes, range.start, value);
        Ok(())
    }

    /// Writes a little-endian 16-bit value through a pointer.
    pub fn write_u16(&mut self, ptr: Ptr, value: u16) -> (r: Result<(), IError>)
        requires
            old(self).wf(),
        ensures
            final(self).wf(),
            final(self).alloc_info@ == old(self).alloc_info@,
            final(self).manifest == old(self).manifest,
            final(self).arena().len() == old(self).arena().len(),
            (match spec_get_range(old(self).alloc_info@, ptr, 2) {
                Err(e) => r matches Err(e2) && e2 == e && final(self).arena() == old(self).arena(),
                Ok(br) => r is Ok && (forall|j: int|
                    0 <= j < old(self).arena().len() && !(br.start <= j < br.end) ==> final(self).arena()[j] == old(self).arena()[j]) && word16_at(
                    final(self).arena(),
                    br.start as int,
                ) == value,
            }),
    {
        let range = match self.get_range(ptr, 2) {
            Ok(r) => r,
            Err(e) => {
                return Err(e);
            },
        };
        write_word16(&mut self.bytes, range.start, value);
        Ok(())
    }

    /// Writes a little-endian 32-bit value through a pointer.
    pub fn write_u32(&mut self, ptr: Ptr, value: u32) -> (r: Result<(), IError>)
        requires
            old(self).wf(),
        ensures
            final(self).wf(),
            final(self).alloc_info@ == old(self).alloc_info@,
            final(self).manifest == old(self).manifest,
            final(self).arena().len() == old(self).arena().len(),
            (match spec_get_range(old(self).alloc_info@, ptr, 4) {
                Err(e) => r matches Err(e2) && e2 == e && final(self).arena() == old(self).arena(),
                Ok(br) => r is Ok && (forall|j: int|
                    0 <= j < old(self).arena().len() && !(br.start <= j < br.end) ==> final(self).arena()[j] == old(self).arena()[j]) && word32_at(
                    final(self).arena(),
                    br.start as int,
                ) == value,
            }),
    {
        let range = match self.get_range(ptr, 4) {
            Ok(r) => r,
            Err(e) => {
                return Err(e);
            },
        };
        write_word32(&mut self.bytes, range.start, value);
        Ok(())
    }

    /// Writes a little-endian 64-bit value through a pointer.
    pub fn write_u64(&mut self, ptr: Ptr, value: u64) -> (r: Result<(), IError>)
        requires
            old(self).wf(),
        ensures
            final(self).wf(),
            final(self).alloc_info@ == old(self).alloc_info@,
            final(self).manifest == old(self).manifest,
            final(self).arena().len() == old(self).arena().len(),
            (match spec_get_range(old(self).alloc_info@, ptr, 8) {
                Err(e) => r matches Err(e2) && e2 == e && final(self).arena() == old(self).arena(),
                Ok(br) => r is Ok && (forall|j: int|
                    0 <= j < old(self).arena().len() && !(br.start <= j < br.end) ==> final(self).arena()[j] == old(self).arena()[j]) && word64_at(
                    final(self).arena(),
                    br.start as int,
                ) == value,
            }),
    {
        let range = match self.get_range(ptr, 8) {
            Ok(r) => r,
            Err(e) => {
                return Err(e);
            },
        };
        write_word64(&mut self.bytes, range.start, value);
        Ok(())
    }
}

} // verus!
