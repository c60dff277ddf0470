use vstd::prelude::*;
use crate::cipher::CipherEntry;
use crate::rights::{spec_derive_rights, HandleRights};

verus! {

/// The file type a host object declares for itself.
#[derive(Clone, Copy, Debug, PartialEq, Eq, Structural)]
pub enum Filetype {
    RegularFile,
    Directory,
    CharacterDevice,
    Unknown,
}

/// An open file-capable host object, owned exclusively by the entry that
/// carries it. The layer never looks inside it: the embedder hands in an
/// opaque token under which it keeps the real OS object, together with the
/// file type the object declares.
#[derive(Clone, Copy, Debug, PartialEq, Eq, Structural)]
pub struct HostFile {
    pub token: u64,
    pub filetype: Filetype,
}

/// An open directory host object, kept by the embedder under an opaque token.
#[derive(Clone, Copy, Debug, PartialEq, Eq, Structural)]
pub struct HostDir {
    pub token: u64,
}

/// A file-capable resource: its rights and the underlying host object.
#[derive(Debug)]
pub struct FileEntry {
    pub rights: HandleRights,
    pub file: HostFile,
}

impl FileEntry {
    pub fn new(rights: HandleRights, file: HostFile) -> (r: FileEntry)
        ensures
            r == (FileEntry { rights, file }),
    {
        FileEntry { rights, file }
    }
}

/// A directory resource: its directory rights, the rights that files opened
/// beneath it may receive, the resolved path used when re-opening
/// descendants, and the underlying host object.
#[derive(Debug)]
pub struct DirEntry {
    pub dir_rights: HandleRights,
    pub file_rights: HandleRights,
    pub path: Option<String>,
    pub dir: HostDir,
}

impl DirEntry {
    pub fn new(
        dir_rights: HandleRights,
        file_rights: HandleRights,
        path: Option<String>,
        dir: HostDir,
    ) -> (r: DirEntry)
        ensures
            r == (DirEntry { dir_rights, file_rights, path, dir }),
    {
        DirEntry { dir_rights, file_rights, path, dir }
    }

    /// The rights a file opened beneath this directory receives: the
    /// requested rights cut down to this entry's inheriting file mask, never
    /// more.
    pub fn derive_file_rights(&self, requested: HandleRights) -> (r: HandleRights)
        ensures
            r == spec_derive_rights(self.file_rights.inheriting, requested),
    {
        self.file_rights.derive(requested)
    }

    /// The rights a subdirectory opened beneath this directory receives.
    pub fn derive_dir_rights(&self, requested: HandleRights) -> (r: HandleRights)
        ensures
            r == spec_derive_rights(self.dir_rights.inheriting, requested),
    {
        self.dir_rights.derive(requested)
    }
}

/// A handle's payload: one closed tagged variant per capability kind.
/// The table never checks rights; callers check them against the rights
/// stored here before an operation proceeds.
#[derive(Debug)]
pub enum ResourceEntry {
    File(FileEntry),
    Dir(DirEntry),
    Cipher(CipherEntry),
}

} // verus!
