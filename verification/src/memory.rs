use vstd::prelude::*;
use vstd::pervasive::VecAdditionalExecFns;
use crate::error::Error;

verus! {

/// One scatter/gather descriptor: a contiguous region of guest linear
/// memory, given as an offset and a length.
#[derive(Clone, Copy, Debug, PartialEq, Eq, Structural)]
pub struct IoVec {
    pub buf: u32,
    pub buf_len: u32,
}

/// The range `[ptr, ptr + len)` lies within the memory.
pub open spec fn in_bounds(mem: Seq<u8>, ptr: int, len: int) -> bool {
    0 <= ptr && 0 <= len && ptr + len <= mem.len()
}

/// The bytes of the range `[ptr, ptr + len)`.
pub open spec fn region_of(mem: Seq<u8>, ptr: u32, len: u32) -> Seq<u8>
    recommends
        in_bounds(mem, ptr as int, len as int),
{
    mem.subrange(ptr as int, ptr as int + len as int)
}

/// The memory with `data` written over the range starting at `ptr`; every
/// byte outside that range is unchanged, and the length is unchanged.
pub open spec fn write_range(mem: Seq<u8>, ptr: u32, data: Seq<u8>) -> Seq<u8>
    recommends
        in_bounds(mem, ptr as int, data.len() as int),
{
    mem.map(
        |i: int, b: u8|
            if ptr as int <= i < ptr as int + data.len() {
                data[i - ptr as int]
            } else {
                b
            },
    )
}

/// The little-endian four-byte encoding of a 32-bit value.
pub open spec fn le_bytes_of_u32(x: u32) -> Seq<u8> {
    seq![
        (x & 0xff) as u8,
        ((x >> 8) & 0xff) as u8,
        ((x >> 16) & 0xff) as u8,
        ((x >> 24) & 0xff) as u8,
    ]
}

/// The 32-bit value read from four little-endian bytes.
pub open spec fn u32_of_le(b0: u8, b1: u8, b2: u8, b3: u8) -> u32 {
    (b0 as u32) | ((b1 as u32) << 8) | ((b2 as u32) << 16) | ((b3 as u32) << 24)
}

/// The descriptor decoded from the `i`-th eight-byte entry of a descriptor
/// array at `ptr`: a little-endian offset, then a little-endian length.
pub open spec fn iovec_at(mem: Seq<u8>, ptr: u32, i: int) -> IoVec
    recommends
        in_bounds(mem, ptr as int, 8 * (i + 1)),
{
    IoVec {
        buf: u32_of_le(
            mem[ptr + 8 * i],
            mem[ptr + 8 * i + 1],
            mem[ptr + 8 * i + 2],
            mem[ptr + 8 * i + 3],
        ),
        buf_len: u32_of_le(
            mem[ptr + 8 * i + 4],
            mem[ptr + 8 * i + 5],
            mem[ptr + 8 * i + 6],
            mem[ptr + 8 * i + 7],
        ),
    }
}

/// The descriptor list decoded from a guest array of `count` entries at
/// `ptr`.
pub open spec fn iovecs_of(mem: Seq<u8>, ptr: u32, count: u32) -> Seq<IoVec>
    recommends
        in_bounds(mem, ptr as int, 8 * count as int),
{
    Seq::new(count as nat, |i: int| iovec_at(mem, ptr, i))
}

/// Every descriptor of the list denotes a range within the memory.
pub open spec fn iovecs_in_bounds(mem: Seq<u8>, iovs: Seq<IoVec>) -> bool {
    forall|i: int|
        0 <= i < iovs.len() ==> in_bounds(mem, #[trigger] iovs[i].buf as int, iovs[i].buf_len as int)
}

/// The total byte length described by a descriptor list.
pub open spec fn sum_len(iovs: Seq<IoVec>) -> int
    decreases iovs.len(),
{
    if iovs.len() == 0 {
        0
    } else {
        sum_len(iovs.drop_last()) + iovs.last().buf_len
    }
}

/// The bytes of all described regions, concatenated in descriptor order.
pub open spec fn gathered(mem: Seq<u8>, iovs: Seq<IoVec>) -> Seq<u8>
    decreases iovs.len(),
{
    if iovs.len() == 0 {
        Seq::empty()
    } else {
        gathered(mem, iovs.drop_last()) + region_of(mem, iovs.last().buf, iovs.last().buf_len)
    }
}

/// The memory with consecutive pieces of `data` written over the described
/// regions, in descriptor order.
pub open spec fn scattered(mem: Seq<u8>, iovs: Seq<IoVec>, data: Seq<u8>) -> Seq<u8>
    recommends
        data.len() == sum_len(iovs),
    decreases iovs.len(),
{
    if iovs.len() == 0 {
        mem
    } else {
        write_range(
            scattered(mem, iovs.drop_last(), data.take(sum_len(iovs.drop_last()))),
            iovs.last().buf,
            data.skip(sum_len(iovs.drop_last())),
        )
    }
}

pub proof fn lemma_gathered_len(mem: Seq<u8>, iovs: Seq<IoVec>)
    requires
        iovecs_in_bounds(mem, iovs),
    ensures
        gathered(mem, iovs).len() == sum_len(iovs),
        sum_len(iovs) >= 0,
    decreases iovs.len(),
{
    if iovs.len() > 0 {
        assert(iovecs_in_bounds(mem, iovs.drop_last())) by {
            assert forall|i: int|
                0 <= i < iovs.drop_last().len() implies in_bounds(
                mem,
                #[trigger] iovs.drop_last()[i].buf as int,
                iovs.drop_last()[i].buf_len as int,
            ) by {
                assert(iovs.drop_last()[i] == iovs[i]);
            }
        }
        lemma_gathered_len(mem, iovs.drop_last());
        assert(in_bounds(mem, iovs[iovs.len() - 1].buf as int, iovs[iovs.len() - 1].buf_len as int));
    }
}

pub proof fn lemma_sum_len_take_step(iovs: Seq<IoVec>, i: int)
    requires
        0 <= i < iovs.len(),
    ensures
        sum_len(iovs.take(i + 1)) == sum_len(iovs.take(i)) + iovs[i].buf_len,
{
    assert(iovs.take(i + 1).drop_last() =~= iovs.take(i));
    assert(iovs.take(i + 1).last() == iovs[i]);
}

pub proof fn lemma_sum_len_take_le(iovs: Seq<IoVec>, i: int)
    requires
        0 <= i <= iovs.len(),
    ensures
        sum_len(iovs.take(i)) <= sum_len(iovs),
    decreases iovs.len() - i,
{
    if i == iovs.len() {
        assert(iovs.take(i) =~= iovs);
    } else {
        lemma_sum_len_take_step(iovs, i);
        lemma_sum_len_take_le(iovs, i + 1);
    }
}

/// The guest's linear memory behind the bounds-checked accessor: the only
/// sanctioned path by which a guest-supplied offset becomes a host byte
/// range. Every access re-checks bounds; nothing is cached across calls.
pub struct GuestMemory {
    bytes: Vec<u8>,
}

impl View for GuestMemory {
    type V = Seq<u8>;

    closed spec fn view(&self) -> Seq<u8> {
        self.bytes@
    }
}

impl GuestMemory {
    pub fn new(bytes: Vec<u8>) -> (m: GuestMemory)
        ensures
            m@ == bytes@,
    {
        GuestMemory { bytes }
    }

    pub fn size(&self) -> (n: usize)
        ensures
            n == self@.len(),
    {
        self.bytes.len()
    }

    /// The run-time mirror of `in_bounds`, free of overflow.
    pub fn check_bounds(&self, ptr: u32, len: u32) -> (ok: bool)
        ensures
            ok == in_bounds(self@, ptr as int, len as int),
    {
        (ptr as u64) + (len as u64) <= (self.bytes.len() as u64)
    }

    /// Copies the range `[ptr, ptr + len)` out of guest memory.
    fn read_region(&self, ptr: u32, len: u32) -> (v: Vec<u8>)
        requires
            in_bounds(self@, ptr as int, len as int),
        ensures
            v@ == region_of(self@, ptr, len),
    {
        proof {
            assert(self.bytes.len() == self@.len());
        }
        let mut v: Vec<u8> = Vec::new();
        let mut i: usize = 0;
        while i < len as usize
            invariant
                in_bounds(self@, ptr as int, len as int),
                self@.len() <= usize::MAX as int,
                i <= len as usize,
                v@.len() == i,
                forall|j: int| 0 <= j < i ==> v@[j] == self@[ptr + j],
            decreases len as usize - i,
        {
            v.push(self.bytes[ptr as usize + i]);
            i = i + 1;
        }
        proof {
            assert(v@ =~= region_of(self@, ptr, len));
        }
        v
    }

    /// Returns a validated copy of a guest byte range, or fails
    /// *out-of-bounds* when the range leaves the guest's addressable memory.
    pub fn dec_slice_of_u8(&self, ptr: u32, len: u32) -> (r: Result<Vec<u8>, Error>)
        ensures
            in_bounds(self@, ptr as int, len as int) ==> (r matches Ok(v) && v@ == region_of(
                self@,
                ptr,
                len,
            )),
            !in_bounds(self@, ptr as int, len as int) ==> r == Err::<Vec<u8>, Error>(
                Error::OutOfBounds,
            ),
    {
        if !self.check_bounds(ptr, len) {
            return Err(Error::OutOfBounds);
        }
        Ok(self.read_region(ptr, len))
    }

    /// Writes part of `data` (from `start`, `len` bytes) into guest memory at
    /// `ptr`.
    fn write_region(&mut self, ptr: u32, data: &Vec<u8>, start: usize, len: usize)
        requires
            in_bounds(old(self)@, ptr as int, len as int),
            start + len <= data@.len(),
        ensures
            final(self)@ == write_range(
                old(self)@,
                ptr,
                data@.subrange(start as int, start as int + len as int),
            ),
    {
        proof {
            assert(self.bytes.len() == self@.len());
            assert(data.len() == data@.len());
        }
        let ghost m0 = self@;
        let mut j: usize = 0;
        while j < len
            invariant
                in_bounds(m0, ptr as int, len as int),
                m0.len() <= usize::MAX as int,
                start + len <= data@.len(),
                data@.len() <= usize::MAX as int,
                j <= len,
                self@ == write_range(m0, ptr, data@.subrange(start as int, start as int + j as int)),
                self@.len() == m0.len(),
            decreases len - j,
        {
            self.bytes.set(ptr as usize + j, data[start + j]);
            j = j + 1;
            proof {
                assert(self@ =~= write_range(
                    m0,
                    ptr,
                    data@.subrange(start as int, start as int + j as int),
                ));
            }
        }
        proof {
            assert(self@ =~= write_range(
                m0,
                ptr,
                data@.subrange(start as int, start as int + len as int),
            ));
        }
    }

    /// Writes a byte sequence into a validated destination range, or fails
    /// *out-of-bounds* leaving the memory unchanged.
    pub fn enc_slice_of_u8(&mut self, data: &Vec<u8>, ptr: u32) -> (r: Result<(), Error>)
        ensures
            in_bounds(old(self)@, ptr as int, data@.len() as int) ==> (r matches Ok(u)
                && final(self)@ == write_range(old(self)@, ptr, data@)),
            !in_bounds(old(self)@, ptr as int, data@.len() as int) ==> r == Err::<(), Error>(
                Error::OutOfBounds,
            ) && final(self)@ == old(self)@,
    {
        if (ptr as u128) + (data.len() as u128) > (self.bytes.len() as u128) {
            return Err(Error::OutOfBounds);
        }
        let len = data.len();
        self.write_region(ptr, data, 0, len);
        proof {
            assert(data@.subrange(0, len as int) =~= data@);
        }
        Ok(())
    }

    /// Writes the little-endian encoding of a 32-bit result value into guest
    /// memory, or fails *out-of-bounds* leaving the memory unchanged.
    pub fn enc_u32(&mut self, x: u32, ptr: u32) -> (r: Result<(), Error>)
        ensures
            in_bounds(old(self)@, ptr as int, 4) ==> (r matches Ok(u) && final(self)@
                == write_range(old(self)@, ptr, le_bytes_of_u32(x))),
            !in_bounds(old(self)@, ptr as int, 4) ==> r == Err::<(), Error>(Error::OutOfBounds)
                && final(self)@ == old(self)@,
    {
        let mut bs: Vec<u8> = Vec::new();
        bs.push((x & 0xff) as u8);
        bs.push(((x >> 8) & 0xff) as u8);
        bs.push(((x >> 16) & 0xff) as u8);
        bs.push(((x >> 24) & 0xff) as u8);
        proof {
            assert(bs@ =~= le_bytes_of_u32(x));
        }
        self.enc_slice_of_u8(&bs, ptr)
    }

    /// Decodes a list of `count` scatter/gather descriptors from a guest
    /// array at `ptr`; the array range and every described region are each
    /// validated, failing *out-of-bounds* otherwise.
    pub fn dec_iovec_slice(&self, ptr: u32, count: u32) -> (r: Result<Vec<IoVec>, Error>)
        ensures
            r matches Ok(v) ==> in_bounds(self@, ptr as int, 8 * count as int) && v@ == iovecs_of(
                self@,
                ptr,
                count,
            ) && iovecs_in_bounds(self@, v@),
            r is Err ==> r == Err::<Vec<IoVec>, Error>(Error::OutOfBounds) && !(in_bounds(
                self@,
                ptr as int,
                8 * count as int,
            ) && iovecs_in_bounds(self@, iovecs_of(self@, ptr, count))),
    {
        if (ptr as u64) + 8 * (count as u64) > (self.bytes.len() as u64) {
            return Err(Error::OutOfBounds);
        }
        proof {
            assert(self.bytes.len() == self@.len());
        }
        let mut v: Vec<IoVec> = Vec::new();
        let mut i: u32 = 0;
        while i < count
            invariant
                in_bounds(self@, ptr as int, 8 * count as int),
                self@.len() <= usize::MAX as int,
                i <= count,
                v@ == iovecs_of(self@, ptr, count).take(i as int),
                iovecs_in_bounds(self@, v@),
            decreases count - i,
        {
            let base = ptr as usize + 8 * (i as usize);
            let buf = dec_u32_le(
                self.bytes[base],
                self.bytes[base + 1],
                self.bytes[base + 2],
                self.bytes[base + 3],
            );
            let buf_len = dec_u32_le(
                self.bytes[base + 4],
                self.bytes[base + 5],
                self.bytes[base + 6],
                self.bytes[base + 7],
            );
            let iov = IoVec { buf, buf_len };
            proof {
                assert(iov == iovec_at(self@, ptr, i as int));
            }
            if !self.check_bounds(buf, buf_len) {
                proof {
                    let ivs = iovecs_of(self@, ptr, count);
                    assert(ivs[i as int] == iov);
                    if iovecs_in_bounds(self@, ivs) {
                        assert(in_bounds(self@, ivs[i as int].buf as int, ivs[i as int].buf_len as int));
                    }
                }
                return Err(Error::OutOfBounds);
            }
            v.push(iov);
            i = i + 1;
            proof {
                assert(v@ =~= iovecs_of(self@, ptr, count).take(i as int));
            }
        }
        proof {
            assert(v@ =~= iovecs_of(self@, ptr, count));
        }
        Ok(v)
    }

    /// Copies the bytes of all described regions out of guest memory,
    /// concatenated in descriptor order.
    pub fn read_gathered(&self, iovs: &Vec<IoVec>) -> (r: Vec<u8>)
        requires
            iovecs_in_bounds(self@, iovs@),
        ensures
            r@ == gathered(self@, iovs@),
    {
        let mut out: Vec<u8> = Vec::new();
        let mut i: usize = 0;
        while i < iovs.len()
            invariant
                iovecs_in_bounds(self@, iovs@),
                i <= iovs@.len(),
                out@ == gathered(self@, iovs@.take(i as int)),
            decreases iovs@.len() - i,
        {
            let mut part = self.read_region(iovs[i].buf, iovs[i].buf_len);
            out.append(&mut part);
            i = i + 1;
            proof {
                assert(iovs@.take(i as int).drop_last() =~= iovs@.take(i as int - 1));
                assert(iovs@.take(i as int).last() == iovs@[i as int - 1]);
            }
        }
        proof {
            assert(iovs@.take(iovs@.len() as int) =~= iovs@);
        }
        out
    }

    /// Overwrites the described regions, in order, with consecutive pieces of
    /// `data`; the guest buffers are mutated in place and the memory size is
    /// unchanged.
    pub fn write_scattered(&mut self, iovs: &Vec<IoVec>, data: &Vec<u8>)
        requires
            iovecs_in_bounds(old(self)@, iovs@),
            data@.len() == sum_len(iovs@),
        ensures
            final(self)@ == scattered(old(self)@, iovs@, data@),
            final(self)@.len() == old(self)@.len(),
    {
        proof {
            assert(data.len() == data@.len());
        }
        let ghost m0 = self@;
        let mut consumed: usize = 0;
        let mut i: usize = 0;
        while i < iovs.len()
            invariant
                iovecs_in_bounds(m0, iovs@),
                data@.len() == sum_len(iovs@),
                data@.len() <= usize::MAX as int,
                i <= iovs@.len(),
                consumed == sum_len(iovs@.take(i as int)),
                self@ == scattered(m0, iovs@.take(i as int), data@.take(consumed as int)),
                self@.len() == m0.len(),
            decreases iovs@.len() - i,
        {
            let l = iovs[i].buf_len;
            proof {
                lemma_sum_len_take_step(iovs@, i as int);
                lemma_sum_len_take_le(iovs@, i as int + 1);
            }
            self.write_region(iovs[i].buf, data, consumed, l as usize);
            proof {
                let take1 = iovs@.take(i as int + 1);
                assert(take1.drop_last() =~= iovs@.take(i as int));
                assert(take1.last() == iovs@[i as int]);
                let c1 = consumed as int + l as int;
                assert(data@.take(c1).take(sum_len(iovs@.take(i as int))) =~= data@.take(
                    consumed as int,
                ));
                assert(data@.take(c1).skip(sum_len(iovs@.take(i as int))) =~= data@.subrange(
                    consumed as int,
                    c1,
                ));
            }
            consumed = consumed + l as usize;
            i = i + 1;
        }
        proof {
            assert(iovs@.take(iovs@.len() as int) =~= iovs@);
            assert(data@.take(consumed as int) =~= data@);
        }
    }
}

/// The run-time mirror of `u32_of_le`.
pub fn dec_u32_le(b0: u8, b1: u8, b2: u8, b3: u8) -> (x: u32)
    ensures
        x == u32_of_le(b0, b1, b2, b3),
{
    (b0 as u32) | ((b1 as u32) << 8) | ((b2 as u32) << 16) | ((b3 as u32) << 24)
}

} // verus!
