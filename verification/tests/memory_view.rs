use wasi_common::error::Error;
use wasi_common::memory::{GuestMemory, IoVec};

fn mem_of(len: usize) -> GuestMemory {
    GuestMemory::new(vec![0u8; len])
}

#[test]
fn slice_write_then_read_round_trips() {
    let mut m = mem_of(16);
    m.enc_slice_of_u8(&vec![1, 2, 3, 4], 4).unwrap();
    assert_eq!(m.dec_slice_of_u8(4, 4).unwrap(), vec![1, 2, 3, 4]);
    assert_eq!(m.dec_slice_of_u8(0, 4).unwrap(), vec![0, 0, 0, 0]);
    assert_eq!(m.size(), 16);
}

#[test]
fn out_of_bounds_ranges_are_rejected() {
    let mut m = mem_of(16);
    assert_eq!(m.dec_slice_of_u8(15, 2).unwrap_err(), Error::OutOfBounds);
    assert_eq!(m.dec_slice_of_u8(16, 1).unwrap_err(), Error::OutOfBounds);
    // offset arithmetic that would overflow 32 bits must not wrap around
    assert_eq!(m.dec_slice_of_u8(u32::MAX, 2).unwrap_err(), Error::OutOfBounds);
    assert_eq!(m.enc_slice_of_u8(&vec![9, 9], 15).unwrap_err(), Error::OutOfBounds);
    // the whole memory is still intact
    assert_eq!(m.dec_slice_of_u8(0, 16).unwrap(), vec![0u8; 16]);
    // zero-length ranges at the very end are fine
    assert_eq!(m.dec_slice_of_u8(16, 0).unwrap(), Vec::<u8>::new());
}

#[test]
fn enc_u32_is_little_endian() {
    let mut m = mem_of(8);
    m.enc_u32(0x12345678, 2).unwrap();
    assert_eq!(m.dec_slice_of_u8(2, 4).unwrap(), vec![0x78, 0x56, 0x34, 0x12]);
    assert_eq!(m.enc_u32(1, 5).unwrap_err(), Error::OutOfBounds);
}

#[test]
fn iovec_lists_decode_and_validate_each_region() {
    let mut m = mem_of(64);
    let mut arr: Vec<u8> = Vec::new();
    for (buf, len) in [(32u32, 3u32), (40u32, 2u32)] {
        arr.extend_from_slice(&buf.to_le_bytes());
        arr.extend_from_slice(&len.to_le_bytes());
    }
    m.enc_slice_of_u8(&arr, 0).unwrap();
    let iovs = m.dec_iovec_slice(0, 2).unwrap();
    assert_eq!(iovs.len(), 2);
    assert_eq!((iovs[0].buf, iovs[0].buf_len), (32, 3));
    assert_eq!((iovs[1].buf, iovs[1].buf_len), (40, 2));

    // an entry whose region leaves the memory is rejected
    let mut bad: Vec<u8> = Vec::new();
    bad.extend_from_slice(&63u32.to_le_bytes());
    bad.extend_from_slice(&2u32.to_le_bytes());
    m.enc_slice_of_u8(&bad, 0).unwrap();
    assert_eq!(m.dec_iovec_slice(0, 1).unwrap_err(), Error::OutOfBounds);

    // an array range leaving the memory is rejected before any decoding
    assert_eq!(m.dec_iovec_slice(60, 1).unwrap_err(), Error::OutOfBounds);
}

#[test]
fn gather_concatenates_and_scatter_writes_back_in_order() {
    let mut m = mem_of(32);
    m.enc_slice_of_u8(&vec![1, 2, 3], 8).unwrap();
    m.enc_slice_of_u8(&vec![4, 5], 16).unwrap();
    let iovs = vec![IoVec { buf: 8, buf_len: 3 }, IoVec { buf: 16, buf_len: 2 }];
    let gathered = m.read_gathered(&iovs);
    assert_eq!(gathered, vec![1, 2, 3, 4, 5]);

    m.write_scattered(&iovs, &vec![9, 8, 7, 6, 5]);
    assert_eq!(m.dec_slice_of_u8(8, 3).unwrap(), vec![9, 8, 7]);
    assert_eq!(m.dec_slice_of_u8(16, 2).unwrap(), vec![6, 5]);
    // bytes between the regions are untouched
    assert_eq!(m.dec_slice_of_u8(11, 5).unwrap(), vec![0u8; 5]);
    assert_eq!(m.size(), 32);
}
