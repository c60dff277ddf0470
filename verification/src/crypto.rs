use vstd::prelude::*;
use vstd::utf8::valid_utf8;
use crate::cipher::{lemma_cipher_entry_model, spec_a128gcm_sizes, CipherAlg, CipherEntry, CipherSpec};
use crate::ctx::WasiCtx;
use crate::entry::ResourceEntry;
use crate::error::Error;
use crate::memory::{
    gathered, in_bounds, iovecs_in_bounds, iovecs_of, le_bytes_of_u32, lemma_gathered_len,
    region_of, scattered, sum_len, write_range, GuestMemory, IoVec,
};
use crate::table::is_lowest_free;

verus! {

/// The largest byte length the AEAD engine is handed in one piece; longer
/// parameters are refused as malformed rather than passed on.
pub const CIPHER_LEN_MAX: u32 = 0x7fff_ffff;

/// What AES-128-GCM encryption makes of a byte stream under a key and nonce:
/// the ciphertext, byte for byte. Named, not spelled out; the tests hold the
/// engine to published test vectors.
pub uninterp spec fn aes128gcm_cipher_of(key: Seq<u8>, nonce: Seq<u8>, data: Seq<u8>) -> Seq<u8>;

/// The authentication tag AES-128-GCM derives from a key, nonce, the
/// additional authenticated data and the byte stream.
pub uninterp spec fn aes128gcm_tag_of(
    key: Seq<u8>,
    nonce: Seq<u8>,
    aad: Seq<u8>,
    data: Seq<u8>,
) -> Seq<u8>;

/// What AES-128-GCM decryption makes of a ciphertext stream under a key and
/// nonce, when the tag authenticates.
pub uninterp spec fn aes128gcm_plain_of(key: Seq<u8>, nonce: Seq<u8>, data: Seq<u8>) -> Seq<u8>;

/// Whether AES-128-GCM decryption of this (ciphertext, tag) pair under this
/// key, nonce and AAD authenticates and succeeds. The outcome is a function
/// of exactly these five values.
pub uninterp spec fn aes128gcm_open_ok(
    key: Seq<u8>,
    nonce: Seq<u8>,
    aad: Seq<u8>,
    data: Seq<u8>,
    tag: Seq<u8>,
) -> bool;

/// Relies on core::str::from_utf8: it succeeds exactly on valid UTF-8 input.
#[verifier::external_body]
fn check_utf8(bytes: &Vec<u8>) -> (r: bool)
    ensures
        r == valid_utf8(bytes@),
{
    core::str::from_utf8(bytes.as_slice()).is_ok()
}

/// Relies on openssl::symm::encrypt_aead with AES-128-GCM: one complete,
/// self-contained authenticated encryption. The ciphertext and tag are a
/// function of key, nonce, AAD and data alone; the ciphertext has the data's
/// length and the tag fills its 16 bytes. With a 16-byte key and the default
/// 12-byte GCM nonce the engine has no refusal path, so the call succeeds.
/// GCM decryption is the inverse counter-mode transform, so decrypting the
/// produced ciphertext recovers the data, and the produced pair is exactly
/// what tag verification accepts.
#[verifier::external_body]
fn aes128gcm_seal(key: &Vec<u8>, nonce: &Vec<u8>, aad: &Vec<u8>, data: &Vec<u8>) -> (r: Option<
    (Vec<u8>, Vec<u8>),
>)
    requires
        key@.len() == 16,
        nonce@.len() <= CIPHER_LEN_MAX,
        aad@.len() <= CIPHER_LEN_MAX,
        data@.len() <= CIPHER_LEN_MAX,
    ensures
        r matches Some(out) ==> out.0@ == aes128gcm_cipher_of(key@, nonce@, data@) && out.0@.len()
            == data@.len() && out.1@ == aes128gcm_tag_of(key@, nonce@, aad@, data@) && out.1@.len()
            == 16,
        r matches Some(out) ==> aes128gcm_plain_of(key@, nonce@, out.0@) == data@
            && aes128gcm_open_ok(key@, nonce@, aad@, out.0@, out.1@),
        nonce@.len() == 12 ==> r is Some,
{
    let mut tag = vec![0u8; 16];
    let cipher = openssl::symm::Cipher::aes_128_gcm();
    match openssl::symm::encrypt_aead(cipher, key, Some(nonce), aad, data, &mut tag) {
        Ok(ct) => Some((ct, tag)),
        Err(_) => None,
    }
}

/// Relies on openssl::symm::decrypt_aead with AES-128-GCM: one complete
/// authenticated decryption. It succeeds exactly when the tag authenticates
/// the ciphertext under this key, nonce and AAD — a deterministic outcome of
/// those five values — and then the plaintext is a function of key, nonce
/// and ciphertext alone, with the ciphertext's length.
#[verifier::external_body]
fn aes128gcm_open(
    key: &Vec<u8>,
    nonce: &Vec<u8>,
    aad: &Vec<u8>,
    data: &Vec<u8>,
    tag: &Vec<u8>,
) -> (r: Option<Vec<u8>>)
    requires
        key@.len() == 16,
        nonce@.len() <= CIPHER_LEN_MAX,
        aad@.len() <= CIPHER_LEN_MAX,
        data@.len() <= CIPHER_LEN_MAX,
        tag@.len() <= CIPHER_LEN_MAX,
    ensures
        (r is Some) == aes128gcm_open_ok(key@, nonce@, aad@, data@, tag@),
        r matches Some(pt) ==> pt@ == aes128gcm_plain_of(key@, nonce@, data@) && pt@.len()
            == data@.len(),
{
    let cipher = openssl::symm::Cipher::aes_128_gcm();
    match openssl::symm::decrypt_aead(cipher, key, Some(nonce), aad, data, tag) {
        Ok(pt) => Some(pt),
        Err(_) => None,
    }
}

/// The name under which the one implemented algorithm family is registered.
pub open spec fn spec_a128gcm_name() -> Seq<u8> {
    seq![0x41u8, 0x31u8, 0x32u8, 0x38u8, 0x47u8, 0x43u8, 0x4du8]
}

/// Exact match against the registered algorithm name.
fn cipher_name_matches(name: &Vec<u8>) -> (b: bool)
    ensures
        b == (name@ == spec_a128gcm_name()),
{
    proof {
        assert(spec_a128gcm_name()[0] == 0x41u8);
        assert(spec_a128gcm_name()[1] == 0x31u8);
        assert(spec_a128gcm_name()[2] == 0x32u8);
        assert(spec_a128gcm_name()[3] == 0x38u8);
        assert(spec_a128gcm_name()[4] == 0x47u8);
        assert(spec_a128gcm_name()[5] == 0x43u8);
        assert(spec_a128gcm_name()[6] == 0x4du8);
    }
    if name.len() != 7 {
        return false;
    }
    let b = name[0] == 0x41 && name[1] == 0x31 && name[2] == 0x32 && name[3] == 0x38 && name[4]
        == 0x47 && name[5] == 0x43 && name[6] == 0x4d;
    proof {
        if b {
            assert(name@ =~= spec_a128gcm_name());
        }
    }
    b
}

/// The guest memory after a successful AEAD encryption: the described
/// regions overwritten in place with the ciphertext, and the tag written at
/// its location.
pub open spec fn aead_encrypt_image(
    mem0: Seq<u8>,
    key: Seq<u8>,
    nonce: Seq<u8>,
    aad: Seq<u8>,
    iovs: Seq<IoVec>,
    tag_ptr: u32,
) -> Seq<u8> {
    let data = gathered(mem0, iovs);
    write_range(
        scattered(mem0, iovs, aes128gcm_cipher_of(key, nonce, data)),
        tag_ptr,
        aes128gcm_tag_of(key, nonce, aad, data),
    )
}

/// Opens an AEAD session: decodes the algorithm name from guest memory,
/// resolves it in the registered set, validates the key length against the
/// algorithm's key size, installs a session that records the key's location
/// (never its bytes), and writes the new handle to `opened_aead_ptr`. On any
/// failure neither the table nor guest memory changes.
pub fn crypto_aead_open(
    ctx: &mut WasiCtx,
    memory: &mut GuestMemory,
    algorithm_ptr: u32,
    algorithm_len: u32,
    key_ptr: u32,
    key_len: u32,
    opened_aead_ptr: u32,
) -> (r: Result<(), Error>)
    ensures
        ({
            let mem0 = old(memory)@;
            let t0 = old(ctx).table@;
            let name = region_of(mem0, algorithm_ptr, algorithm_len);
            &&& (!in_bounds(mem0, algorithm_ptr as int, algorithm_len as int) ==> r == Err::<
                (),
                Error,
            >(Error::OutOfBounds))
            &&& (in_bounds(mem0, algorithm_ptr as int, algorithm_len as int) && !valid_utf8(name)
                ==> r == Err::<(), Error>(Error::MalformedSequence))
            &&& (in_bounds(mem0, algorithm_ptr as int, algorithm_len as int) && valid_utf8(name)
                && name != spec_a128gcm_name() ==> r == Err::<(), Error>(Error::NotSupported))
            &&& (in_bounds(mem0, algorithm_ptr as int, algorithm_len as int) && valid_utf8(name)
                && name == spec_a128gcm_name() && key_len != spec_a128gcm_sizes().key_size ==> r
                == Err::<(), Error>(Error::InvalidArgument))
            &&& (in_bounds(mem0, algorithm_ptr as int, algorithm_len as int) && valid_utf8(name)
                && name == spec_a128gcm_name() && key_len == spec_a128gcm_sizes().key_size
                && !in_bounds(mem0, opened_aead_ptr as int, 4) ==> r == Err::<(), Error>(
                Error::OutOfBounds,
            ))
            &&& (in_bounds(mem0, algorithm_ptr as int, algorithm_len as int) && valid_utf8(name)
                && name == spec_a128gcm_name() && key_len == spec_a128gcm_sizes().key_size
                && in_bounds(mem0, opened_aead_ptr as int, 4) && (forall|h: u32|
                t0.contains_key(h)) ==> r == Err::<(), Error>(Error::TableExhausted))
            &&& (in_bounds(mem0, algorithm_ptr as int, algorithm_len as int) && valid_utf8(name)
                && name == spec_a128gcm_name() && key_len == spec_a128gcm_sizes().key_size
                && in_bounds(mem0, opened_aead_ptr as int, 4) && !(forall|h: u32|
                t0.contains_key(h)) ==> r == Ok::<(), Error>(()) && (exists|h: u32|
                is_lowest_free(t0, h) && (exists|ce: CipherEntry|
                    ce.spec_alg() == CipherAlg::Aes128Gcm && ce.spec_key_ptr() == key_ptr
                        && ce.spec_key_len() == key_len && ce.spec_sizes() == spec_a128gcm_sizes()
                        && final(ctx).table@ == t0.insert(h, ResourceEntry::Cipher(ce)))
                    && final(memory)@ == write_range(mem0, opened_aead_ptr, le_bytes_of_u32(h))))
            &&& (r is Err ==> final(ctx).table@ == t0 && final(memory)@ == mem0)
            &&& final(ctx).args == old(ctx).args
            &&& final(ctx).env == old(ctx).env
            &&& final(ctx).random == old(ctx).random
            &&& final(ctx).clocks == old(ctx).clocks
        }),
{
    let name = match memory.dec_slice_of_u8(algorithm_ptr, algorithm_len) {
        Ok(v) => v,
        Err(e) => {
            return Err(e);
        },
    };
    if !check_utf8(&name) {
        return Err(Error::MalformedSequence);
    }
    if !cipher_name_matches(&name) {
        return Err(Error::NotSupported);
    }
    let sizes = CipherSpec { key_size: 16, block_size: 16, nonce_size: 12, tag_size: 16 };
    if key_len != sizes.key_size {
        return Err(Error::InvalidArgument);
    }
    if !memory.check_bounds(opened_aead_ptr, 4) {
        return Err(Error::OutOfBounds);
    }
    let ce = CipherEntry::new(CipherAlg::Aes128Gcm, key_ptr, key_len, sizes);
    let guest_cipher = match ctx.insert_cipher_entry(ce) {
        Ok(h) => h,
        Err(e) => {
            return Err(e);
        },
    };
    match memory.enc_u32(guest_cipher, opened_aead_ptr) {
        Ok(u) => {
            proof {
                assert(is_lowest_free(old(ctx).table@, guest_cipher));
                assert(ce.spec_alg() == CipherAlg::Aes128Gcm && ce.spec_key_ptr() == key_ptr
                    && ce.spec_key_len() == key_len && ce.spec_sizes() == spec_a128gcm_sizes()
                    && ctx.table@ == old(ctx).table@.insert(
                    guest_cipher,
                    ResourceEntry::Cipher(ce),
                ));
                assert(memory@ == write_range(
                    old(memory)@,
                    opened_aead_ptr,
                    le_bytes_of_u32(guest_cipher),
                ));
            }
            Ok(())
        },
        Err(e) => {
            proof {
                assert(false);
            }
            Err(e)
        },
    }
}

/// Encrypts in place: resolves the session, re-reads the key bytes from the
/// session's recorded location (guest memory may have changed since open),
/// validates every guest range, gathers the described regions, runs one
/// complete AEAD encryption, scatters the ciphertext back over the same
/// regions, and writes the 16-byte tag to `tag_ptr`, whose declared length
/// must match the algorithm's tag size; the nonce's length must match the
/// algorithm's declared nonce size. On those inputs success is owed; on any
/// failure guest memory is unchanged.
pub fn crypto_aead_encrypt(
    ctx: &WasiCtx,
    memory: &mut GuestMemory,
    aead: u32,
    nonce_ptr: u32,
    nonce_len: u32,
    auth_ptr: u32,
    auth_len: u32,
    data_ptr: u32,
    data_len: u32,
    tag_ptr: u32,
    tag_len: u32,
) -> (r: Result<(), Error>)
    ensures
        ({
            let mem0 = old(memory)@;
            let t = ctx.table@;
            let session_ok = t.contains_key(aead) && t[aead] is Cipher;
            &&& (!session_ok ==> r == Err::<(), Error>(Error::InvalidHandle))
            &&& (session_ok ==> ({
                let ce = t[aead]->Cipher_0;
                let key = region_of(mem0, ce.spec_key_ptr(), ce.spec_key_len());
                let nonce = region_of(mem0, nonce_ptr, nonce_len);
                let aad = region_of(mem0, auth_ptr, auth_len);
                let iovs = iovecs_of(mem0, data_ptr, data_len);
                let ranges_ok = in_bounds(mem0, ce.spec_key_ptr() as int, ce.spec_key_len() as int)
                    && in_bounds(mem0, nonce_ptr as int, nonce_len as int) && in_bounds(
                    mem0,
                    auth_ptr as int,
                    auth_len as int,
                ) && in_bounds(mem0, data_ptr as int, 8 * data_len as int) && iovecs_in_bounds(
                    mem0,
                    iovs,
                );
                &&& (!ranges_ok ==> r == Err::<(), Error>(Error::OutOfBounds))
                &&& (ranges_ok && tag_len != spec_a128gcm_sizes().tag_size ==> r == Err::<
                    (),
                    Error,
                >(Error::InvalidArgument))
                &&& (ranges_ok && tag_len == spec_a128gcm_sizes().tag_size && !in_bounds(
                    mem0,
                    tag_ptr as int,
                    tag_len as int,
                ) ==> r == Err::<(), Error>(Error::OutOfBounds))
                &&& (ranges_ok && tag_len == spec_a128gcm_sizes().tag_size && in_bounds(
                    mem0,
                    tag_ptr as int,
                    tag_len as int,
                ) && nonce_len != spec_a128gcm_sizes().nonce_size ==> r == Err::<(), Error>(
                    Error::InvalidArgument,
                ))
                &&& (ranges_ok && tag_len == spec_a128gcm_sizes().tag_size && in_bounds(
                    mem0,
                    tag_ptr as int,
                    tag_len as int,
                ) && nonce_len == spec_a128gcm_sizes().nonce_size && (auth_len > CIPHER_LEN_MAX
                    || sum_len(iovs) > CIPHER_LEN_MAX) ==> r == Err::<(), Error>(
                    Error::InvalidArgument,
                ))
                &&& (ranges_ok && tag_len == spec_a128gcm_sizes().tag_size && in_bounds(
                    mem0,
                    tag_ptr as int,
                    tag_len as int,
                ) && nonce_len == spec_a128gcm_sizes().nonce_size && auth_len <= CIPHER_LEN_MAX
                    && sum_len(iovs) <= CIPHER_LEN_MAX ==> r == Ok::<(), Error>(())
                    && final(memory)@ == aead_encrypt_image(mem0, key, nonce, aad, iovs, tag_ptr))
            }))
            &&& (r is Err ==> final(memory)@ == mem0)
            &&& final(memory)@.len() == mem0.len()
        }),
{
    let ce = match ctx.get_cipher_entry(aead) {
        Ok(ce) => ce,
        Err(e) => {
            return Err(e);
        },
    };
    proof {
        use_type_invariant(&ce);
        lemma_cipher_entry_model(ce);
    }
    let key = match memory.dec_slice_of_u8(ce.key_location().0, ce.key_location().1) {
        Ok(v) => v,
        Err(e) => {
            return Err(e);
        },
    };
    let nonce = match memory.dec_slice_of_u8(nonce_ptr, nonce_len) {
        Ok(v) => v,
        Err(e) => {
            return Err(e);
        },
    };
    let aad = match memory.dec_slice_of_u8(auth_ptr, auth_len) {
        Ok(v) => v,
        Err(e) => {
            return Err(e);
        },
    };
    let iovs = match memory.dec_iovec_slice(data_ptr, data_len) {
        Ok(v) => v,
        Err(e) => {
            return Err(e);
        },
    };
    if tag_len != ce.sizes().tag_size {
        return Err(Error::InvalidArgument);
    }
    if !memory.check_bounds(tag_ptr, tag_len) {
        return Err(Error::OutOfBounds);
    }
    if nonce_len != ce.sizes().nonce_size {
        return Err(Error::InvalidArgument);
    }
    if auth_len > CIPHER_LEN_MAX {
        return Err(Error::InvalidArgument);
    }
    let data = memory.read_gathered(&iovs);
    proof {
        lemma_gathered_len(memory@, iovs@);
    }
    if data.len() > CIPHER_LEN_MAX as usize {
        return Err(Error::InvalidArgument);
    }
    match aes128gcm_seal(&key, &nonce, &aad, &data) {
        Some(out) => {
            let (ct, tag) = out;
            memory.write_scattered(&iovs, &ct);
            match memory.enc_slice_of_u8(&tag, tag_ptr) {
                Ok(u) => Ok(()),
                Err(e) => {
                    proof {
                        assert(false);
                    }
                    Err(e)
                },
            }
        },
        None => {
            proof {
                assert(false);
            }
            Err(Error::InvalidArgument)
        },
    }
}

/// The guest memory after a successful AEAD decryption: the described
/// regions overwritten in place with the recovered plaintext.
pub open spec fn aead_decrypt_image(
    mem0: Seq<u8>,
    key: Seq<u8>,
    nonce: Seq<u8>,
    iovs: Seq<IoVec>,
) -> Seq<u8> {
    scattered(mem0, iovs, aes128gcm_plain_of(key, nonce, gathered(mem0, iovs)))
}

/// Decrypts in place: mirrors encryption, but the tag is supplied and is
/// checked by the engine's finalize step. The nonce's length must match the
/// algorithm's declared nonce size. Success happens exactly when the tag
/// authenticates the ciphertext under the session's key, the nonce and the
/// AAD; when it does not, the call fails *invalid-argument* and guest memory
/// is left unchanged — fail closed, the buffers never hold unauthenticated
/// plaintext.
pub fn crypto_aead_decrypt(
    ctx: &WasiCtx,
    memory: &mut GuestMemory,
    aead: u32,
    nonce_ptr: u32,
    nonce_len: u32,
    auth_ptr: u32,
    auth_len: u32,
    data_ptr: u32,
    data_len: u32,
    tag_ptr: u32,
    tag_len: u32,
) -> (r: Result<(), Error>)
    ensures
        ({
            let mem0 = old(memory)@;
            let t = ctx.table@;
            let session_ok = t.contains_key(aead) && t[aead] is Cipher;
            &&& (!session_ok ==> r == Err::<(), Error>(Error::InvalidHandle))
            &&& (session_ok ==> ({
                let ce = t[aead]->Cipher_0;
                let key = region_of(mem0, ce.spec_key_ptr(), ce.spec_key_len());
                let nonce = region_of(mem0, nonce_ptr, nonce_len);
                let aad = region_of(mem0, auth_ptr, auth_len);
                let tag = region_of(mem0, tag_ptr, tag_len);
                let iovs = iovecs_of(mem0, data_ptr, data_len);
                let ranges_ok = in_bounds(mem0, ce.spec_key_ptr() as int, ce.spec_key_len() as int)
                    && in_bounds(mem0, nonce_ptr as int, nonce_len as int) && in_bounds(
                    mem0,
                    auth_ptr as int,
                    auth_len as int,
                ) && in_bounds(mem0, tag_ptr as int, tag_len as int) && in_bounds(
                    mem0,
                    data_ptr as int,
                    8 * data_len as int,
                ) && iovecs_in_bounds(mem0, iovs);
                &&& (!ranges_ok ==> r == Err::<(), Error>(Error::OutOfBounds))
                &&& (ranges_ok && nonce_len != spec_a128gcm_sizes().nonce_size ==> r == Err::<
                    (),
                    Error,
                >(Error::InvalidArgument))
                &&& (ranges_ok && nonce_len == spec_a128gcm_sizes().nonce_size && (auth_len
                    > CIPHER_LEN_MAX || tag_len > CIPHER_LEN_MAX || sum_len(iovs)
                    > CIPHER_LEN_MAX) ==> r == Err::<(), Error>(Error::InvalidArgument))
                &&& (ranges_ok && nonce_len == spec_a128gcm_sizes().nonce_size && auth_len
                    <= CIPHER_LEN_MAX && tag_len <= CIPHER_LEN_MAX && sum_len(iovs)
                    <= CIPHER_LEN_MAX ==> ({
                    let authentic = aes128gcm_open_ok(key, nonce, aad, gathered(mem0, iovs), tag);
                    &&& (authentic ==> r == Ok::<(), Error>(())
                        && final(memory)@ == aead_decrypt_image(mem0, key, nonce, iovs))
                    &&& (!authentic ==> r == Err::<(), Error>(Error::InvalidArgument)
                        && final(memory)@ == mem0)
                }))
            }))
            &&& (r is Err ==> final(memory)@ == mem0)
            &&& final(memory)@.len() == mem0.len()
        }),
{
    let ce = match ctx.get_cipher_entry(aead) {
        Ok(ce) => ce,
        Err(e) => {
            return Err(e);
        },
    };
    proof {
        use_type_invariant(&ce);
        lemma_cipher_entry_model(ce);
    }
    let key = match memory.dec_slice_of_u8(ce.key_location().0, ce.key_location().1) {
        Ok(v) => v,
        Err(e) => {
            return Err(e);
        },
    };
    let nonce = match memory.dec_slice_of_u8(nonce_ptr, nonce_len) {
        Ok(v) => v,
        Err(e) => {
            return Err(e);
        },
    };
    let aad = match memory.dec_slice_of_u8(auth_ptr, auth_len) {
        Ok(v) => v,
        Err(e) => {
            return Err(e);
        },
    };
    let tag = match memory.dec_slice_of_u8(tag_ptr, tag_len) {
        Ok(v) => v,
        Err(e) => {
            return Err(e);
        },
    };
    let iovs = match memory.dec_iovec_slice(data_ptr, data_len) {
        Ok(v) => v,
        Err(e) => {
            return Err(e);
        },
    };
    if nonce_len != ce.sizes().nonce_size {
        return Err(Error::InvalidArgument);
    }
    if auth_len > CIPHER_LEN_MAX || tag_len > CIPHER_LEN_MAX {
        return Err(Error::InvalidArgument);
    }
    let data = memory.read_gathered(&iovs);
    proof {
        lemma_gathered_len(memory@, iovs@);
    }
    if data.len() > CIPHER_LEN_MAX as usize {
        return Err(Error::InvalidArgument);
    }
    match aes128gcm_open(&key, &nonce, &aad, &data, &tag) {
        Some(pt) => {
            memory.write_scattered(&iovs, &pt);
            Ok(())
        },
        None => Err(Error::InvalidArgument),
    }
}

/// Closes an AEAD session: removes it from the registry. No other cleanup is
/// needed, since no key bytes were ever copied into the session. A handle
/// that is absent, or does not name a cipher session, fails *invalid-handle*.
#[allow(unused_variables)]
pub fn crypto_aead_close(ctx: &mut WasiCtx, memory: &mut GuestMemory, aead: u32) -> (r: Result<
    (),
    Error,
>)
    ensures
        old(ctx).table@.contains_key(aead) && old(ctx).table@[aead] is Cipher ==> r == Ok::<
            (),
            Error,
        >(()) && final(ctx).table@ == old(ctx).table@.remove(aead),
        !(old(ctx).table@.contains_key(aead) && old(ctx).table@[aead] is Cipher) ==> r == Err::<
            (),
            Error,
        >(Error::InvalidHandle) && final(ctx).table@ == old(ctx).table@,
        final(ctx).args == old(ctx).args,
        final(ctx).env == old(ctx).env,
        final(ctx).random == old(ctx).random,
        final(ctx).clocks == old(ctx).clocks,
        final(memory)@ == old(memory)@,
{
    match ctx.remove_cipher_entry(aead) {
        Ok(ce) => Ok(()),
        Err(e) => Err(e),
    }
}

/// Accepted at the protocol level but deliberately unfinished: always fails
/// *not-implemented*, leaving the context and guest memory unchanged.
#[allow(unused_variables)]
pub fn crypto_mac_open(
    ctx: &mut WasiCtx,
    memory: &mut GuestMemory,
    algorithm_ptr: u32,
    algorithm_len: u32,
    key_ptr: u32,
    key_len: u32,
    opened_mac_ptr: u32,
) -> (r: Result<(), Error>)
    ensures
        r == Err::<(), Error>(Error::NotImplemented),
        *final(ctx) == *old(ctx),
        final(memory)@ == old(memory)@,
{
    Err(Error::NotImplemented)
}

/// Accepted at the protocol level but deliberately unfinished: always fails
/// *not-implemented*, leaving guest memory unchanged.
#[allow(unused_variables)]
pub fn crypto_mac_update(
    ctx: &WasiCtx,
    memory: &mut GuestMemory,
    mac: u32,
    data_ptr: u32,
    data_len: u32,
) -> (r: Result<(), Error>)
    ensures
        r == Err::<(), Error>(Error::NotImplemented),
        final(memory)@ == old(memory)@,
{
    Err(Error::NotImplemented)
}

/// Accepted at the protocol level but deliberately unfinished: always fails
/// *not-implemented*, leaving guest memory unchanged.
#[allow(unused_variables)]
pub fn crypto_mac_digest(
    ctx: &WasiCtx,
    memory: &mut GuestMemory,
    mac: u32,
    digest_ptr: u32,
    digest_len: u32,
) -> (r: Result<(), Error>)
    ensures
        r == Err::<(), Error>(Error::NotImplemented),
        final(memory)@ == old(memory)@,
{
    Err(Error::NotImplemented)
}

/// Accepted at the protocol level but deliberately unfinished: always fails
/// *not-implemented*, leaving the context and guest memory unchanged.
#[allow(unused_variables)]
pub fn crypto_mac_close(ctx: &mut WasiCtx, memory: &mut GuestMemory, mac: u32) -> (r: Result<
    (),
    Error,
>)
    ensures
        r == Err::<(), Error>(Error::NotImplemented),
        *final(ctx) == *old(ctx),
        final(memory)@ == old(memory)@,
{
    Err(Error::NotImplemented)
}

/// Accepted at the protocol level but deliberately unfinished: always fails
/// *not-implemented*, leaving guest memory unchanged.
#[allow(unused_variables)]
pub fn crypto_hkdf(
    ctx: &WasiCtx,
    memory: &mut GuestMemory,
    algorithm_ptr: u32,
    algorithm_len: u32,
    op: u32,
    input_ptr: u32,
    input_len: u32,
    output_ptr: u32,
    output_len: u32,
) -> (r: Result<(), Error>)
    ensures
        r == Err::<(), Error>(Error::NotImplemented),
        final(memory)@ == old(memory)@,
{
    Err(Error::NotImplemented)
}

} // verus!
