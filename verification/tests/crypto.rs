use wasi_common::crypto::{
    crypto_aead_close, crypto_aead_decrypt, crypto_aead_encrypt, crypto_aead_open, crypto_hkdf,
    crypto_mac_close, crypto_mac_digest, crypto_mac_open, crypto_mac_update,
};
use wasi_common::ctx::WasiCtx;
use wasi_common::entry::{Filetype, HostFile};
use wasi_common::error::Error;
use wasi_common::memory::GuestMemory;
use wasi_common::rights::{HandleRights, FILE_CAPS_READ};

const ALG_PTR: u32 = 0;
const KEY_PTR: u32 = 16;
const NONCE_PTR: u32 = 48;
const AAD_PTR: u32 = 64;
const HANDLE_PTR: u32 = 96;
const IOV_PTR: u32 = 128;
const DATA_PTR: u32 = 256;
const TAG_PTR: u32 = 512;

fn new_memory() -> GuestMemory {
    GuestMemory::new(vec![0u8; 1024])
}

fn put(m: &mut GuestMemory, ptr: u32, bytes: &[u8]) {
    m.enc_slice_of_u8(&bytes.to_vec(), ptr).unwrap();
}

fn get(m: &GuestMemory, ptr: u32, len: u32) -> Vec<u8> {
    m.dec_slice_of_u8(ptr, len).unwrap()
}

fn put_iovecs(m: &mut GuestMemory, list: &[(u32, u32)]) {
    let mut arr: Vec<u8> = Vec::new();
    for (buf, len) in list {
        arr.extend_from_slice(&buf.to_le_bytes());
        arr.extend_from_slice(&len.to_le_bytes());
    }
    put(m, IOV_PTR, &arr);
}

/// Installs the zero key and the registered algorithm name, opens a session,
/// and returns its handle as written back into guest memory.
fn open_session(ctx: &mut WasiCtx, m: &mut GuestMemory) -> u32 {
    put(m, ALG_PTR, b"A128GCM");
    put(m, KEY_PTR, &[0u8; 16]);
    crypto_aead_open(ctx, m, ALG_PTR, 7, KEY_PTR, 16, HANDLE_PTR).unwrap();
    u32::from_le_bytes(get(m, HANDLE_PTR, 4).try_into().unwrap())
}

fn hex(bytes: &[u8]) -> String {
    let mut s = String::new();
    for b in bytes {
        s.push_str(&format!("{:02x}", b));
    }
    s
}

#[test]
fn open_succeeds_and_hands_out_the_lowest_handle() {
    let mut ctx = WasiCtx::default();
    let mut m = new_memory();
    let h = open_session(&mut ctx, &mut m);
    assert_eq!(h, 0);
    let h2 = {
        crypto_aead_open(&mut ctx, &mut m, ALG_PTR, 7, KEY_PTR, 16, HANDLE_PTR).unwrap();
        u32::from_le_bytes(get(&m, HANDLE_PTR, 4).try_into().unwrap())
    };
    assert_eq!(h2, 1);
}

#[test]
fn open_rejects_wrong_key_length_with_invalid_argument() {
    let mut ctx = WasiCtx::default();
    let mut m = new_memory();
    put(&mut m, ALG_PTR, b"A128GCM");
    put(&mut m, KEY_PTR, &[0u8; 15]);
    let r = crypto_aead_open(&mut ctx, &mut m, ALG_PTR, 7, KEY_PTR, 15, HANDLE_PTR);
    assert_eq!(r.unwrap_err(), Error::InvalidArgument);
}

#[test]
fn open_rejects_unregistered_algorithm_with_not_supported() {
    let mut ctx = WasiCtx::default();
    let mut m = new_memory();
    put(&mut m, ALG_PTR, b"A256GCM");
    put(&mut m, KEY_PTR, &[0u8; 32]);
    let r = crypto_aead_open(&mut ctx, &mut m, ALG_PTR, 7, KEY_PTR, 32, HANDLE_PTR);
    assert_eq!(r.unwrap_err(), Error::NotSupported);
}

#[test]
fn open_rejects_non_utf8_name_with_malformed_sequence() {
    let mut ctx = WasiCtx::default();
    let mut m = new_memory();
    put(&mut m, ALG_PTR, &[0xff, 0xfe, 0x41]);
    put(&mut m, KEY_PTR, &[0u8; 16]);
    let r = crypto_aead_open(&mut ctx, &mut m, ALG_PTR, 3, KEY_PTR, 16, HANDLE_PTR);
    assert_eq!(r.unwrap_err(), Error::MalformedSequence);
}

#[test]
fn open_rejects_out_of_bounds_name_range() {
    let mut ctx = WasiCtx::default();
    let mut m = new_memory();
    let r = crypto_aead_open(&mut ctx, &mut m, 1020, 7, KEY_PTR, 16, HANDLE_PTR);
    assert_eq!(r.unwrap_err(), Error::OutOfBounds);
}

#[test]
fn encrypt_then_decrypt_round_trips() {
    let mut ctx = WasiCtx::default();
    let mut m = new_memory();
    let h = open_session(&mut ctx, &mut m);
    put(&mut m, NONCE_PTR, &[0u8; 12]);
    let plaintext = b"hello wasi crypto";
    put(&mut m, DATA_PTR, plaintext);
    put_iovecs(&mut m, &[(DATA_PTR, 17)]);

    crypto_aead_encrypt(&ctx, &mut m, h, NONCE_PTR, 12, AAD_PTR, 0, IOV_PTR, 1, TAG_PTR, 16)
        .unwrap();
    let ciphertext = get(&m, DATA_PTR, 17);
    let tag = get(&m, TAG_PTR, 16);
    assert_eq!(ciphertext.len(), 17);
    assert_ne!(ciphertext.as_slice(), plaintext);
    assert_eq!(tag.len(), 16);

    crypto_aead_decrypt(&ctx, &mut m, h, NONCE_PTR, 12, AAD_PTR, 0, IOV_PTR, 1, TAG_PTR, 16)
        .unwrap();
    assert_eq!(get(&m, DATA_PTR, 17).as_slice(), plaintext);
}

#[test]
fn split_iovecs_preserve_length_and_round_trip() {
    let mut ctx = WasiCtx::default();
    let mut m = new_memory();
    let h = open_session(&mut ctx, &mut m);
    put(&mut m, NONCE_PTR, &[0u8; 12]);
    let plaintext = b"hello wasi crypto";
    put(&mut m, DATA_PTR, plaintext);
    // the 17 bytes spread across two descriptors, split after byte 5
    put_iovecs(&mut m, &[(DATA_PTR, 5), (DATA_PTR + 5, 12)]);

    crypto_aead_encrypt(&ctx, &mut m, h, NONCE_PTR, 12, AAD_PTR, 0, IOV_PTR, 2, TAG_PTR, 16)
        .unwrap();
    let ciphertext = get(&m, DATA_PTR, 17);
    assert_eq!(ciphertext.len(), 17);
    assert_ne!(ciphertext.as_slice(), plaintext);
    assert_eq!(get(&m, TAG_PTR, 16).len(), 16);

    crypto_aead_decrypt(&ctx, &mut m, h, NONCE_PTR, 12, AAD_PTR, 0, IOV_PTR, 2, TAG_PTR, 16)
        .unwrap();
    assert_eq!(get(&m, DATA_PTR, 17).as_slice(), plaintext);
}

#[test]
fn split_point_does_not_change_the_ciphertext() {
    // one complete AEAD transformation: scattering the same bytes differently
    // yields the same ciphertext and tag
    let mut outputs: Vec<(Vec<u8>, Vec<u8>)> = Vec::new();
    for split in [(17u32, 0u32), (5, 12), (1, 16)] {
        let mut ctx = WasiCtx::default();
        let mut m = new_memory();
        let h = open_session(&mut ctx, &mut m);
        put(&mut m, NONCE_PTR, &[0u8; 12]);
        put(&mut m, DATA_PTR, b"hello wasi crypto");
        let count = if split.1 == 0 {
            put_iovecs(&mut m, &[(DATA_PTR, split.0)]);
            1
        } else {
            put_iovecs(&mut m, &[(DATA_PTR, split.0), (DATA_PTR + split.0, split.1)]);
            2
        };
        crypto_aead_encrypt(&ctx, &mut m, h, NONCE_PTR, 12, AAD_PTR, 0, IOV_PTR, count, TAG_PTR, 16)
            .unwrap();
        outputs.push((get(&m, DATA_PTR, 17), get(&m, TAG_PTR, 16)));
    }
    assert_eq!(outputs[0], outputs[1]);
    assert_eq!(outputs[0], outputs[2]);
}

#[test]
fn known_vectors_pin_the_engine() {
    // zero key, zero nonce, empty AAD: published AES-128-GCM results
    let mut ctx = WasiCtx::default();
    let mut m = new_memory();
    let h = open_session(&mut ctx, &mut m);
    put(&mut m, NONCE_PTR, &[0u8; 12]);

    // empty plaintext: only the tag is produced
    put_iovecs(&mut m, &[(DATA_PTR, 0)]);
    crypto_aead_encrypt(&ctx, &mut m, h, NONCE_PTR, 12, AAD_PTR, 0, IOV_PTR, 1, TAG_PTR, 16)
        .unwrap();
    assert_eq!(hex(&get(&m, TAG_PTR, 16)), "58e2fccefa7e3061367f1d57a4e7455a");

    // one zero block
    put(&mut m, DATA_PTR, &[0u8; 16]);
    put_iovecs(&mut m, &[(DATA_PTR, 16)]);
    crypto_aead_encrypt(&ctx, &mut m, h, NONCE_PTR, 12, AAD_PTR, 0, IOV_PTR, 1, TAG_PTR, 16)
        .unwrap();
    assert_eq!(hex(&get(&m, DATA_PTR, 16)), "0388dace60b6a392f328c2b971b2fe78");
    assert_eq!(hex(&get(&m, TAG_PTR, 16)), "ab6e47d42cec13bdf53a67b21257bddf");
}

#[test]
fn flipping_any_bit_of_ciphertext_tag_or_aad_fails_closed() {
    let mut ctx = WasiCtx::default();
    let mut m = new_memory();
    let h = open_session(&mut ctx, &mut m);
    put(&mut m, NONCE_PTR, &[0u8; 12]);
    put(&mut m, AAD_PTR, b"hdr!");
    let plaintext = b"hello wasi crypto";
    put(&mut m, DATA_PTR, plaintext);
    put_iovecs(&mut m, &[(DATA_PTR, 17)]);
    crypto_aead_encrypt(&ctx, &mut m, h, NONCE_PTR, 12, AAD_PTR, 4, IOV_PTR, 1, TAG_PTR, 16)
        .unwrap();
    let ciphertext = get(&m, DATA_PTR, 17);
    let tag = get(&m, TAG_PTR, 16);

    // regions to tamper with: the ciphertext, the tag, the AAD
    for (ptr, len) in [(DATA_PTR, 17u32), (TAG_PTR, 16), (AAD_PTR, 4)] {
        for byte in 0..len {
            for bit in 0..8u8 {
                let original = get(&m, ptr + byte, 1)[0];
                put(&mut m, ptr + byte, &[original ^ (1 << bit)]);
                let r = crypto_aead_decrypt(
                    &ctx, &mut m, h, NONCE_PTR, 12, AAD_PTR, 4, IOV_PTR, 1, TAG_PTR, 16,
                );
                assert_eq!(r.unwrap_err(), Error::InvalidArgument);
                // fail closed: the data buffer was not replaced by a guess
                let expected = if ptr == DATA_PTR {
                    let mut c = ciphertext.clone();
                    c[byte as usize] ^= 1 << bit;
                    c
                } else {
                    ciphertext.clone()
                };
                assert_eq!(get(&m, DATA_PTR, 17), expected);
                put(&mut m, ptr + byte, &[original]);
            }
        }
    }

    // untampered parameters still authenticate
    crypto_aead_decrypt(&ctx, &mut m, h, NONCE_PTR, 12, AAD_PTR, 4, IOV_PTR, 1, TAG_PTR, 16)
        .unwrap();
    assert_eq!(get(&m, DATA_PTR, 17).as_slice(), plaintext);
    assert_eq!(get(&m, TAG_PTR, 16), tag);
}

#[test]
fn operations_on_unopened_or_closed_handles_fail_invalid_handle() {
    let mut ctx = WasiCtx::default();
    let mut m = new_memory();
    put(&mut m, NONCE_PTR, &[0u8; 12]);
    put_iovecs(&mut m, &[(DATA_PTR, 4)]);

    let enc = crypto_aead_encrypt(&ctx, &mut m, 5, NONCE_PTR, 12, AAD_PTR, 0, IOV_PTR, 1, TAG_PTR, 16);
    assert_eq!(enc.unwrap_err(), Error::InvalidHandle);
    let dec = crypto_aead_decrypt(&ctx, &mut m, 5, NONCE_PTR, 12, AAD_PTR, 0, IOV_PTR, 1, TAG_PTR, 16);
    assert_eq!(dec.unwrap_err(), Error::InvalidHandle);
    assert_eq!(crypto_aead_close(&mut ctx, &mut m, 5).unwrap_err(), Error::InvalidHandle);

    let h = open_session(&mut ctx, &mut m);
    crypto_aead_close(&mut ctx, &mut m, h).unwrap();
    let enc = crypto_aead_encrypt(&ctx, &mut m, h, NONCE_PTR, 12, AAD_PTR, 0, IOV_PTR, 1, TAG_PTR, 16);
    assert_eq!(enc.unwrap_err(), Error::InvalidHandle);
    let dec = crypto_aead_decrypt(&ctx, &mut m, h, NONCE_PTR, 12, AAD_PTR, 0, IOV_PTR, 1, TAG_PTR, 16);
    assert_eq!(dec.unwrap_err(), Error::InvalidHandle);
    assert_eq!(crypto_aead_close(&mut ctx, &mut m, h).unwrap_err(), Error::InvalidHandle);

    // a handle naming a resource of another kind is not a session either
    ctx.insert_file_at(
        7,
        HostFile { token: 1, filetype: Filetype::RegularFile },
        HandleRights::new(FILE_CAPS_READ, 0),
    );
    assert_eq!(crypto_aead_close(&mut ctx, &mut m, 7).unwrap_err(), Error::InvalidHandle);
}

#[test]
fn closed_handles_are_reused() {
    let mut ctx = WasiCtx::default();
    let mut m = new_memory();
    let h = open_session(&mut ctx, &mut m);
    assert_eq!(h, 0);
    crypto_aead_close(&mut ctx, &mut m, h).unwrap();
    let h2 = open_session(&mut ctx, &mut m);
    assert_eq!(h2, 0);
}

#[test]
fn encrypt_validates_tag_length_and_ranges() {
    let mut ctx = WasiCtx::default();
    let mut m = new_memory();
    let h = open_session(&mut ctx, &mut m);
    put(&mut m, NONCE_PTR, &[0u8; 12]);
    put_iovecs(&mut m, &[(DATA_PTR, 4)]);

    let r = crypto_aead_encrypt(&ctx, &mut m, h, NONCE_PTR, 12, AAD_PTR, 0, IOV_PTR, 1, TAG_PTR, 12);
    assert_eq!(r.unwrap_err(), Error::InvalidArgument);
    let r = crypto_aead_encrypt(&ctx, &mut m, h, 1020, 12, AAD_PTR, 0, IOV_PTR, 1, TAG_PTR, 16);
    assert_eq!(r.unwrap_err(), Error::OutOfBounds);
    let r = crypto_aead_encrypt(&ctx, &mut m, h, NONCE_PTR, 12, AAD_PTR, 0, IOV_PTR, 1, 1020, 16);
    assert_eq!(r.unwrap_err(), Error::OutOfBounds);

    // a data descriptor pointing outside guest memory
    put_iovecs(&mut m, &[(1020, 8)]);
    let r = crypto_aead_encrypt(&ctx, &mut m, h, NONCE_PTR, 12, AAD_PTR, 0, IOV_PTR, 1, TAG_PTR, 16);
    assert_eq!(r.unwrap_err(), Error::OutOfBounds);

    // a nonce length other than the algorithm's declared nonce size
    put_iovecs(&mut m, &[(DATA_PTR, 4)]);
    let r = crypto_aead_encrypt(&ctx, &mut m, h, NONCE_PTR, 0, AAD_PTR, 0, IOV_PTR, 1, TAG_PTR, 16);
    assert_eq!(r.unwrap_err(), Error::InvalidArgument);
    let r = crypto_aead_encrypt(&ctx, &mut m, h, NONCE_PTR, 8, AAD_PTR, 0, IOV_PTR, 1, TAG_PTR, 16);
    assert_eq!(r.unwrap_err(), Error::InvalidArgument);
    let r = crypto_aead_decrypt(&ctx, &mut m, h, NONCE_PTR, 11, AAD_PTR, 0, IOV_PTR, 1, TAG_PTR, 16);
    assert_eq!(r.unwrap_err(), Error::InvalidArgument);
    // the data region was never touched by those failures
    assert_eq!(get(&m, DATA_PTR, 4), vec![0u8; 4]);
}

#[test]
fn mac_and_hkdf_are_recognized_but_not_implemented() {
    let mut ctx = WasiCtx::default();
    let mut m = new_memory();
    assert_eq!(
        crypto_mac_open(&mut ctx, &mut m, ALG_PTR, 7, KEY_PTR, 16, HANDLE_PTR).unwrap_err(),
        Error::NotImplemented
    );
    assert_eq!(
        crypto_mac_update(&ctx, &mut m, 0, DATA_PTR, 4).unwrap_err(),
        Error::NotImplemented
    );
    assert_eq!(
        crypto_mac_digest(&ctx, &mut m, 0, DATA_PTR, 16).unwrap_err(),
        Error::NotImplemented
    );
    assert_eq!(crypto_mac_close(&mut ctx, &mut m, 0).unwrap_err(), Error::NotImplemented);
    assert_eq!(
        crypto_hkdf(&ctx, &mut m, ALG_PTR, 7, 0, DATA_PTR, 4, TAG_PTR, 16).unwrap_err(),
        Error::NotImplemented
    );
}
