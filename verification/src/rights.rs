use vstd::prelude::*;

verus! {

// Rights on file-capable handles.
pub const FILE_CAPS_READ: u64 = 0x1;
pub const FILE_CAPS_WRITE: u64 = 0x2;
pub const FILE_CAPS_SEEK: u64 = 0x4;
pub const FILE_CAPS_TELL: u64 = 0x8;
pub const FILE_CAPS_FILESTAT_GET: u64 = 0x10;
pub const FILE_CAPS_ALL: u64 = 0x1f;

// Rights on directory handles.
pub const DIR_CAPS_OPEN: u64 = 0x1;
pub const DIR_CAPS_READDIR: u64 = 0x2;
pub const DIR_CAPS_PATH_CREATE: u64 = 0x4;
pub const DIR_CAPS_PATH_UNLINK: u64 = 0x8;
pub const DIR_CAPS_ALL: u64 = 0xf;

/// A pair of bitmasks: operations permitted directly on a handle (`base`) and
/// the rights passed down to resources newly created beneath it
/// (`inheriting`).
#[derive(Clone, Copy, Debug, PartialEq, Eq, Structural)]
pub struct HandleRights {
    pub base: u64,
    pub inheriting: u64,
}

/// `a` grants no operation outside `b`.
pub open spec fn rights_subset(a: u64, b: u64) -> bool {
    a & b == a
}

/// The rights a resource created beneath a parent handle receives: the
/// requested rights cut down to the parent's inheriting mask.
pub open spec fn spec_derive_rights(parent_inheriting: u64, requested: HandleRights) -> HandleRights {
    HandleRights {
        base: requested.base & parent_inheriting,
        inheriting: requested.inheriting & parent_inheriting,
    }
}

impl HandleRights {
    pub fn new(base: u64, inheriting: u64) -> (r: HandleRights)
        ensures
            r == (HandleRights { base, inheriting }),
    {
        HandleRights { base, inheriting }
    }

    /// Rights may only narrow along a derivation chain, never widen: this is
    /// the single sanctioned way to compute the rights of a resource opened
    /// beneath a handle whose inheriting mask is `self.inheriting`.
    pub fn derive(&self, requested: HandleRights) -> (r: HandleRights)
        ensures
            r == spec_derive_rights(self.inheriting, requested),
    {
        HandleRights {
            base: requested.base & self.inheriting,
            inheriting: requested.inheriting & self.inheriting,
        }
    }
}

/// A resource opened beneath a parent never has rights exceeding the
/// intersection of the parent's inheriting mask and the requested rights:
/// both masks of the derived rights stay within the parent's inheriting mask
/// and within what was requested.
pub proof fn lemma_derived_rights_narrow(parent_inheriting: u64, requested: HandleRights)
    ensures
        rights_subset(spec_derive_rights(parent_inheriting, requested).base, parent_inheriting),
        rights_subset(spec_derive_rights(parent_inheriting, requested).base, requested.base),
        rights_subset(spec_derive_rights(parent_inheriting, requested).inheriting, parent_inheriting),
        rights_subset(spec_derive_rights(parent_inheriting, requested).inheriting, requested.inheriting),
{
    let p = parent_inheriting;
    let b = requested.base;
    let i = requested.inheriting;
    assert((b & p) & p == b & p) by (bit_vector);
    assert((b & p) & b == b & p) by (bit_vector);
    assert((i & p) & p == i & p) by (bit_vector);
    assert((i & p) & i == i & p) by (bit_vector);
}

} // verus!
