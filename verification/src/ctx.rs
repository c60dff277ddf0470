use vstd::prelude::*;
use crate::cipher::CipherEntry;
use crate::entry::{DirEntry, FileEntry, Filetype, HostDir, HostFile, ResourceEntry};
use crate::error::{Error, StringArrayError};
use crate::rights::{
    HandleRights, DIR_CAPS_ALL, FILE_CAPS_ALL, FILE_CAPS_READ, FILE_CAPS_WRITE,
};
use crate::string_array::{cum_size, StringArray};
use vstd::string::StringSliceAdditionalSpecFns;
use crate::table::{is_lowest_free, Table};

verus! {

/// The source of guest-visible randomness, injected at construction time.
#[derive(Debug)]
pub enum RandomSource {
    /// The documented default factory: the embedder draws from the operating
    /// system's entropy source.
    OsEntropy,
    /// An injected deterministic source supplying these bytes, for
    /// reproducible runs.
    Fixed(Vec<u8>),
}

/// The clock state recorded on a context: the instance-creation timestamp in
/// nanoseconds of the embedder's monotonic clock. The platform clock sources
/// themselves are collaborators of the embedder and stay outside this layer.
#[derive(Clone, Copy, Debug, PartialEq, Eq, Structural)]
pub struct WasiCtxClocks {
    pub creation_time: u64,
}

impl WasiCtxClocks {
    pub fn new(creation_time: u64) -> (c: WasiCtxClocks)
        ensures
            c == (WasiCtxClocks { creation_time }),
    {
        WasiCtxClocks { creation_time }
    }
}

impl Default for WasiCtxClocks {
    /// The default reading before the embedder injects a real one.
    fn default() -> (c: WasiCtxClocks)
        ensures
            c == (WasiCtxClocks { creation_time: 0u64 }),
    {
        WasiCtxClocks { creation_time: 0 }
    }
}

/// The per-guest-instance root: argument and environment vectors, the
/// randomness source, the recorded clock state, and the resource table. It is
/// a single exclusively-owned value passed by reference into each host call;
/// the embedding runtime serializes host-call dispatch per instance.
#[derive(Debug)]
pub struct WasiCtx {
    pub args: StringArray,
    pub env: StringArray,
    pub random: RandomSource,
    pub clocks: WasiCtxClocks,
    pub table: Table,
}

impl WasiCtx {
    pub fn builder() -> (b: WasiCtxBuilder)
        ensures
            b.args@ == Seq::<Seq<u8>>::empty(),
            b.env@ == Seq::<Seq<u8>>::empty(),
            b.random is None,
            b.clocks == (WasiCtxClocks { creation_time: 0u64 }),
            b.table@ == Map::<u32, ResourceEntry>::empty(),
    {
        WasiCtxBuilder {
            args: StringArray::new(),
            env: StringArray::new(),
            random: None,
            clocks: WasiCtxClocks { creation_time: 0 },
            table: Table::new(),
        }
    }

    /// Installs a file resource at an exact handle value.
    pub fn insert_file_at(&mut self, fd: u32, file: HostFile, rights: HandleRights)
        ensures
            final(self).table@ == old(self).table@.insert(
                fd,
                ResourceEntry::File((FileEntry { rights, file })),
            ),
            final(self).args == old(self).args,
            final(self).env == old(self).env,
            final(self).random == old(self).random,
            final(self).clocks == old(self).clocks,
    {
        self.table.insert_at(fd, ResourceEntry::File(FileEntry { rights, file }));
    }

    /// Installs a directory resource at an exact handle value.
    pub fn insert_dir_at(
        &mut self,
        fd: u32,
        dir: HostDir,
        dir_rights: HandleRights,
        file_rights: HandleRights,
        path: String,
    )
        ensures
            final(self).table@ == old(self).table@.insert(
                fd,
                ResourceEntry::Dir(
                    (DirEntry { dir_rights, file_rights, path: Some(path), dir }),
                ),
            ),
            final(self).args == old(self).args,
            final(self).env == old(self).env,
            final(self).random == old(self).random,
            final(self).clocks == old(self).clocks,
    {
        self.table.insert_at(
            fd,
            ResourceEntry::Dir(DirEntry { dir_rights, file_rights, path: Some(path), dir }),
        );
    }

    /// Installs a file resource at the lowest free handle value.
    pub fn insert_file(&mut self, file: HostFile, rights: HandleRights) -> (r: Result<u32, Error>)
        ensures
            r matches Ok(h) ==> is_lowest_free(old(self).table@, h) && final(self).table@ == old(
                self,
            ).table@.insert(h, ResourceEntry::File((FileEntry { rights, file }))),
            r is Err ==> r == Err::<u32, Error>(Error::TableExhausted) && final(self).table@ == old(
                self,
            ).table@ && (forall|h: u32| old(self).table@.contains_key(h)),
            final(self).args == old(self).args,
            final(self).env == old(self).env,
            final(self).random == old(self).random,
            final(self).clocks == old(self).clocks,
    {
        self.table.push(ResourceEntry::File(FileEntry { rights, file }))
    }

    /// Installs an AEAD session at the lowest free handle value.
    pub(crate) fn insert_cipher_entry(&mut self, ce: CipherEntry) -> (r: Result<u32, Error>)
        ensures
            r matches Ok(h) ==> is_lowest_free(old(self).table@, h) && final(self).table@ == old(
                self,
            ).table@.insert(h, ResourceEntry::Cipher(ce)),
            r is Err ==> r == Err::<u32, Error>(Error::TableExhausted) && final(self).table@ == old(
                self,
            ).table@ && (forall|h: u32| old(self).table@.contains_key(h)),
            final(self).args == old(self).args,
            final(self).env == old(self).env,
            final(self).random == old(self).random,
            final(self).clocks == old(self).clocks,
    {
        self.table.push(ResourceEntry::Cipher(ce))
    }

    /// Resolves an AEAD session handle; a handle that is absent or does not
    /// name a cipher session fails *invalid-handle*.
    pub(crate) fn get_cipher_entry(&self, h: u32) -> (r: Result<CipherEntry, Error>)
        ensures
            self.table@.contains_key(h) && self.table@[h] is Cipher ==> (r matches Ok(ce)
                && self.table@[h] == ResourceEntry::Cipher(ce)),
            !(self.table@.contains_key(h) && self.table@[h] is Cipher) ==> r == Err::<
                CipherEntry,
                Error,
            >(Error::InvalidHandle),
    {
        match self.table.get(h) {
            Ok(ResourceEntry::Cipher(ce)) => Ok(*ce),
            Ok(_) => Err(Error::InvalidHandle),
            Err(_) => Err(Error::InvalidHandle),
        }
    }

    /// Detaches an AEAD session; a handle that is absent or does not name a
    /// cipher session fails *invalid-handle* and the table is unchanged.
    pub(crate) fn remove_cipher_entry(&mut self, h: u32) -> (r: Result<CipherEntry, Error>)
        ensures
            old(self).table@.contains_key(h) && old(self).table@[h] is Cipher ==> (r matches Ok(ce)
                && old(self).table@[h] == ResourceEntry::Cipher(ce) && final(self).table@ == old(
                self,
            ).table@.remove(h)),
            !(old(self).table@.contains_key(h) && old(self).table@[h] is Cipher) ==> r == Err::<
                CipherEntry,
                Error,
            >(Error::InvalidHandle) && final(self).table@ == old(self).table@,
            final(self).args == old(self).args,
            final(self).env == old(self).env,
            final(self).random == old(self).random,
            final(self).clocks == old(self).clocks,
    {
        let found = match self.table.get(h) {
            Ok(ResourceEntry::Cipher(_)) => true,
            _ => false,
        };
        if !found {
            return Err(Error::InvalidHandle);
        }
        match self.table.remove(h) {
            Ok(ResourceEntry::Cipher(ce)) => Ok(ce),
            _ => {
                proof {
                    assert(false);
                }
                Err(Error::InvalidHandle)
            },
        }
    }
}

impl Default for WasiCtx {
    /// An empty context: no arguments, no environment, an empty table, the
    /// entropy-source default for randomness.
    fn default() -> (c: WasiCtx)
        ensures
            c.args@ == Seq::<Seq<u8>>::empty(),
            c.env@ == Seq::<Seq<u8>>::empty(),
            c.random is OsEntropy,
            c.clocks == (WasiCtxClocks { creation_time: 0u64 }),
            c.table@ == Map::<u32, ResourceEntry>::empty(),
    {
        WasiCtx {
            args: StringArray::new(),
            env: StringArray::new(),
            random: RandomSource::OsEntropy,
            clocks: WasiCtxClocks { creation_time: 0 },
            table: Table::new(),
        }
    }
}

/// Accumulates a context's configuration: argument strings, standard-stream
/// bindings at the reserved handles 0/1/2, preopened directories, the clock
/// reading, and an optional override of the randomness source.
#[derive(Debug)]
pub struct WasiCtxBuilder {
    pub args: StringArray,
    pub env: StringArray,
    pub random: Option<RandomSource>,
    pub clocks: WasiCtxClocks,
    pub table: Table,
}

impl WasiCtxBuilder {
    /// The only terminal operation: assembles the context. The accumulated
    /// vectors were validated at each `arg`, so assembly itself always
    /// succeeds.
    pub fn build(self) -> (r: Result<WasiCtx, Error>)
        ensures
            r matches Ok(c) && c.args == self.args && c.env == self.env && c.clocks == self.clocks
                && c.table@ == self.table@ && c.random == (match self.random {
                Some(rs) => rs,
                None => RandomSource::OsEntropy,
            }),
    {
        let random = match self.random {
            Some(rs) => rs,
            None => RandomSource::OsEntropy,
        };
        Ok(
            WasiCtx {
                args: self.args,
                env: self.env,
                random,
                clocks: self.clocks,
                table: self.table,
            },
        )
    }

    /// Adds one argument string; refused, with the array unchanged, exactly
    /// when it would overrun the guest's 32-bit string-array format.
    pub fn arg(&mut self, a: &str) -> (r: Result<(), StringArrayError>)
        ensures
            old(self).args@.len() >= u32::MAX ==> r == Err::<(), StringArrayError>(
                StringArrayError::NumberElements,
            ) && final(self).args@ == old(self).args@,
            old(self).args@.len() < u32::MAX && cum_size(old(self).args@) + a.spec_bytes().len()
                + 1 > u32::MAX ==> r == Err::<(), StringArrayError>(StringArrayError::SizeElements)
                && final(self).args@ == old(self).args@,
            old(self).args@.len() < u32::MAX && cum_size(old(self).args@) + a.spec_bytes().len()
                + 1 <= u32::MAX ==> r == Ok::<(), StringArrayError>(()) && final(self).args@ == old(
                self,
            ).args@.push(a.spec_bytes()),
            final(self).env == old(self).env,
            final(self).random == old(self).random,
            final(self).clocks == old(self).clocks,
            final(self).table@ == old(self).table@,
    {
        self.args.push(a)
    }

    /// Binds the guest's standard input at the reserved handle 0, read-only
    /// (more rights would be tolerable; the shipped set is deliberately this
    /// restrictive).
    pub fn stdin(&mut self, f: HostFile)
        ensures
            final(self).table@ == old(self).table@.insert(
                0u32,
                ResourceEntry::File(
                    (FileEntry {
                        rights: (HandleRights { base: FILE_CAPS_READ, inheriting: 0u64 }),
                        file: f,
                    }),
                ),
            ),
            final(self).args == old(self).args,
            final(self).env == old(self).env,
            final(self).random == old(self).random,
            final(self).clocks == old(self).clocks,
    {
        self.table.insert_at(
            0,
            ResourceEntry::File(
                FileEntry { rights: HandleRights { base: FILE_CAPS_READ, inheriting: 0 }, file: f },
            ),
        );
    }

    /// Binds the guest's standard output at the reserved handle 1,
    /// write-only.
    pub fn stdout(&mut self, f: HostFile)
        ensures
            final(self).table@ == old(self).table@.insert(
                1u32,
                ResourceEntry::File(
                    (FileEntry {
                        rights: (HandleRights { base: FILE_CAPS_WRITE, inheriting: 0u64 }),
                        file: f,
                    }),
                ),
            ),
            final(self).args == old(self).args,
            final(self).env == old(self).env,
            final(self).random == old(self).random,
            final(self).clocks == old(self).clocks,
    {
        self.table.insert_at(
            1,
            ResourceEntry::File(
                FileEntry {
                    rights: HandleRights { base: FILE_CAPS_WRITE, inheriting: 0 },
                    file: f,
                },
            ),
        );
    }

    /// Binds the guest's standard error at the reserved handle 2, write-only.
    pub fn stderr(&mut self, f: HostFile)
        ensures
            final(self).table@ == old(self).table@.insert(
                2u32,
                ResourceEntry::File(
                    (FileEntry {
                        rights: (HandleRights { base: FILE_CAPS_WRITE, inheriting: 0u64 }),
                        file: f,
                    }),
                ),
            ),
            final(self).args == old(self).args,
            final(self).env == old(self).env,
            final(self).random == old(self).random,
            final(self).clocks == old(self).clocks,
    {
        self.table.insert_at(
            2,
            ResourceEntry::File(
                FileEntry {
                    rights: HandleRights { base: FILE_CAPS_WRITE, inheriting: 0 },
                    file: f,
                },
            ),
        );
    }

    /// Binds the embedder's own standard streams, as character devices under
    /// the tokens 0, 1 and 2, at the three reserved handles.
    pub fn inherit_stdio(&mut self)
        ensures
            final(self).table@ == old(self).table@.insert(
                0u32,
                ResourceEntry::File(
                    (FileEntry {
                        rights: (HandleRights { base: FILE_CAPS_READ, inheriting: 0u64 }),
                        file: (HostFile { token: 0u64, filetype: Filetype::CharacterDevice }),
                    }),
                ),
            ).insert(
                1u32,
                ResourceEntry::File(
                    (FileEntry {
                        rights: (HandleRights { base: FILE_CAPS_WRITE, inheriting: 0u64 }),
                        file: (HostFile { token: 1u64, filetype: Filetype::CharacterDevice }),
                    }),
                ),
            ).insert(
                2u32,
                ResourceEntry::File(
                    (FileEntry {
                        rights: (HandleRights { base: FILE_CAPS_WRITE, inheriting: 0u64 }),
                        file: (HostFile { token: 2u64, filetype: Filetype::CharacterDevice }),
                    }),
                ),
            ),
            final(self).args == old(self).args,
            final(self).env == old(self).env,
            final(self).random == old(self).random,
            final(self).clocks == old(self).clocks,
    {
        self.stdin(HostFile { token: 0, filetype: Filetype::CharacterDevice });
        self.stdout(HostFile { token: 1, filetype: Filetype::CharacterDevice });
        self.stderr(HostFile { token: 2, filetype: Filetype::CharacterDevice });
    }

    /// Grants a preopened directory, with full directory and file rights,
    /// associated with its guest-visible path; returns the handle it was
    /// installed at.
    pub fn preopened_dir(&mut self, dir: HostDir, path: String) -> (r: Result<u32, Error>)
        ensures
            r matches Ok(h) ==> is_lowest_free(old(self).table@, h) && final(self).table@ == old(
                self,
            ).table@.insert(
                h,
                ResourceEntry::Dir(
                    (DirEntry {
                        dir_rights: (HandleRights { base: DIR_CAPS_ALL, inheriting: DIR_CAPS_ALL }),
                        file_rights: (HandleRights {
                            base: FILE_CAPS_ALL,
                            inheriting: FILE_CAPS_ALL,
                        }),
                        path: Some(path),
                        dir,
                    }),
                ),
            ),
            r is Err ==> r == Err::<u32, Error>(Error::TableExhausted) && final(self).table@ == old(
                self,
            ).table@ && (forall|h: u32| old(self).table@.contains_key(h)),
            final(self).args == old(self).args,
            final(self).env == old(self).env,
            final(self).random == old(self).random,
            final(self).clocks == old(self).clocks,
    {
        self.table.push(
            ResourceEntry::Dir(
                DirEntry {
                    dir_rights: HandleRights { base: DIR_CAPS_ALL, inheriting: DIR_CAPS_ALL },
                    file_rights: HandleRights { base: FILE_CAPS_ALL, inheriting: FILE_CAPS_ALL },
                    path: Some(path),
                    dir,
                },
            ),
        )
    }

    /// Overrides the randomness source.
    pub fn random(&mut self, source: RandomSource)
        ensures
            final(self).random == Some(source),
            final(self).args == old(self).args,
            final(self).env == old(self).env,
            final(self).clocks == old(self).clocks,
            final(self).table@ == old(self).table@,
    {
        self.random = Some(source);
    }
}

} // verus!
