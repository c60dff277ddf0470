use vstd::prelude::*;

verus! {

/// The algorithms of the statically registered set. Only one family is
/// currently implemented.
#[derive(Clone, Copy, Debug, PartialEq, Eq, Structural)]
pub enum CipherAlg {
    Aes128Gcm,
}

/// The static size specification of an algorithm, resolved at session-open
/// time: key, block, nonce and tag sizes in bytes.
#[derive(Clone, Copy, Debug, PartialEq, Eq, Structural)]
pub struct CipherSpec {
    pub key_size: u32,
    pub block_size: u32,
    pub nonce_size: u32,
    pub tag_size: u32,
}

/// The size specification of AES-128-GCM.
pub open spec fn spec_a128gcm_sizes() -> CipherSpec {
    CipherSpec { key_size: 16, block_size: 16, nonce_size: 12, tag_size: 16 }
}

/// A bound AEAD session: the algorithm, the location of the key in guest
/// linear memory (the key bytes are never copied; they are re-read from this
/// location on every use), and the algorithm's size specification.
#[derive(Clone, Copy, Debug)]
pub struct CipherEntry {
    pub(crate) alg: CipherAlg,
    pub(crate) key_ptr: u32,
    pub(crate) key_len: u32,
    pub(crate) sizes: CipherSpec,
}

impl CipherEntry {
    /// A session's key location always matches its algorithm's declared key
    /// size, and its size specification is the registered one; checked once
    /// at session-open.
    #[verifier::type_invariant]
    pub(crate) open spec fn wf(self) -> bool {
        self.sizes == spec_a128gcm_sizes() && self.key_len == self.sizes.key_size
    }

    /// The algorithm the session is bound to.
    pub closed spec fn spec_alg(self) -> CipherAlg {
        self.alg
    }

    /// The guest-memory offset of the key's location descriptor.
    pub closed spec fn spec_key_ptr(self) -> u32 {
        self.key_ptr
    }

    /// The length of the key's location descriptor.
    pub closed spec fn spec_key_len(self) -> u32 {
        self.key_len
    }

    /// The size specification resolved at session-open time.
    pub closed spec fn spec_sizes(self) -> CipherSpec {
        self.sizes
    }

    pub(crate) fn new(alg: CipherAlg, key_ptr: u32, key_len: u32, sizes: CipherSpec) -> (r:
        CipherEntry)
        requires
            sizes == spec_a128gcm_sizes(),
            key_len == sizes.key_size,
        ensures
            r == (CipherEntry { alg, key_ptr, key_len, sizes }),
            r.spec_alg() == alg,
            r.spec_key_ptr() == key_ptr,
            r.spec_key_len() == key_len,
            r.spec_sizes() == sizes,
    {
        CipherEntry { alg, key_ptr, key_len, sizes }
    }

    /// The recorded location of the key in guest linear memory, as an
    /// (offset, length) pair.
    pub fn key_location(&self) -> (r: (u32, u32))
        ensures
            r.0 == self.spec_key_ptr(),
            r.1 == self.spec_key_len(),
    {
        (self.key_ptr, self.key_len)
    }

    pub fn alg(&self) -> (r: CipherAlg)
        ensures
            r == self.spec_alg(),
    {
        self.alg
    }

    pub fn sizes(&self) -> (r: CipherSpec)
        ensures
            r == self.spec_sizes(),
    {
        self.sizes
    }
}

/// Within the crate the spec accessors are the fields, named one for one.
pub(crate) proof fn lemma_cipher_entry_model(ce: CipherEntry)
    ensures
        ce.spec_alg() == ce.alg,
        ce.spec_key_ptr() == ce.key_ptr,
        ce.spec_key_len() == ce.key_len,
        ce.spec_sizes() == ce.sizes,
{
}

} // verus!
