use vstd::prelude::*;
use vstd::pervasive::VecAdditionalExecFns;
use crate::entry::ResourceEntry;
use crate::error::Error;

verus! {

/// `h` is free in `m` and every smaller handle value is occupied.
pub open spec fn is_lowest_free(m: Map<u32, ResourceEntry>, h: u32) -> bool {
    &&& !m.contains_key(h)
    &&& forall|k: u32| k < h ==> m.contains_key(k)
}

/// The capability table: the single source of truth for what a guest handle
/// may do. It maps a numeric handle to a typed resource entry; it performs no
/// rights check itself. Viewed as a finite map from handle to entry.
#[derive(Debug)]
pub struct Table {
    entries: Vec<Option<ResourceEntry>>,
}

impl View for Table {
    type V = Map<u32, ResourceEntry>;

    closed spec fn view(&self) -> Map<u32, ResourceEntry> {
        Map::new(
            |h: u32| (h as int) < self.entries@.len() && self.entries@[h as int] is Some,
            |h: u32| self.entries@[h as int].unwrap(),
        )
    }
}

impl Table {
    pub fn new() -> (t: Table)
        ensures
            t@ == Map::<u32, ResourceEntry>::empty(),
    {
        let t = Table { entries: Vec::new() };
        proof {
            assert(t@ =~= Map::<u32, ResourceEntry>::empty());
        }
        t
    }

    /// Installs or replaces the entry at an exact handle value, as used for
    /// reserved slots such as the standard streams.
    pub fn insert_at(&mut self, h: u32, entry: ResourceEntry)
        ensures
            final(self)@ == old(self)@.insert(h, entry),
    {
        let ghost m0 = self@;
        let idx = h as usize;
        while self.entries.len() <= idx
            invariant
                self@ == m0,
            decreases idx + 1 - self.entries.len(),
        {
            self.entries.push(None);
            proof {
                assert(self@ =~= m0);
            }
        }
        self.entries.set(idx, Some(entry));
        proof {
            assert(self@ =~= m0.insert(h, entry));
        }
    }

    /// Installs the entry at the lowest free handle value and returns that
    /// handle; fails only when every representable handle is occupied.
    pub fn push(&mut self, entry: ResourceEntry) -> (r: Result<u32, Error>)
        ensures
            r matches Ok(h) ==> is_lowest_free(old(self)@, h)
                && final(self)@ == old(self)@.insert(h, entry),
            r is Err ==> r == Err::<u32, Error>(Error::TableExhausted)
                && final(self)@ == old(self)@
                && (forall|h: u32| old(self)@.contains_key(h)),
    {
        let ghost m0 = self@;
        let mut h: u32 = 0;
        loop
            invariant
                self@ == m0,
                forall|k: u32| k < h ==> m0.contains_key(k),
            ensures
                self@ == m0,
                !m0.contains_key(h),
                forall|k: u32| k < h ==> m0.contains_key(k),
            decreases u32::MAX - h,
        {
            if h as usize >= self.entries.len() {
                break;
            }
            if self.entries[h as usize].is_none() {
                break;
            }
            if h == u32::MAX {
                assert(forall|k: u32| m0.contains_key(k)) by {
                    assert(forall|k: u32| k < u32::MAX ==> m0.contains_key(k));
                    assert(m0.contains_key(u32::MAX));
                }
                return Err(Error::TableExhausted);
            }
            h = h + 1;
        }
        self.insert_at(h, entry);
        Ok(h)
    }

    /// Resolves a handle to its entry; the entry's stored rights are what the
    /// caller must check before acting on the resource.
    pub fn get(&self, h: u32) -> (r: Result<&ResourceEntry, Error>)
        ensures
            self@.contains_key(h) ==> (r matches Ok(e) && *e == self@[h]),
            !self@.contains_key(h) ==> r == Err::<&ResourceEntry, Error>(Error::InvalidHandle),
    {
        let idx = h as usize;
        if idx < self.entries.len() {
            match &self.entries[idx] {
                Some(e) => Ok(e),
                None => Err(Error::InvalidHandle),
            }
        } else {
            Err(Error::InvalidHandle)
        }
    }

    /// Detaches and returns ownership of the entry for the caller to
    /// finalize; the handle value becomes free for reuse.
    pub fn remove(&mut self, h: u32) -> (r: Result<ResourceEntry, Error>)
        ensures
            old(self)@.contains_key(h) ==> (r matches Ok(e) && e == old(self)@[h]
                && final(self)@ == old(self)@.remove(h)),
            !old(self)@.contains_key(h) ==> r == Err::<ResourceEntry, Error>(Error::InvalidHandle)
                && final(self)@ == old(self)@,
    {
        let ghost m0 = self@;
        let idx = h as usize;
        if idx < self.entries.len() {
            let mut taken: Option<ResourceEntry> = None;
            self.entries.set_and_swap(idx, &mut taken);
            match taken {
                Some(e) => {
                    proof {
                        assert(self@ =~= m0.remove(h));
                    }
                    Ok(e)
                },
                None => {
                    proof {
                        assert(self@ =~= m0);
                    }
                    Err(Error::InvalidHandle)
                },
            }
        } else {
            Err(Error::InvalidHandle)
        }
    }
}

/// Installing an entry at a handle makes lookups of that handle resolve to
/// exactly that entry, and removing the handle afterwards makes it resolve no
/// longer: together with `get`'s contract, a handle installed by `insert_at`
/// answers `get` with the installed entry until it is removed, and with an
/// invalid-handle failure after.
pub proof fn lemma_insert_get_remove(m: Map<u32, ResourceEntry>, h: u32, e: ResourceEntry)
    ensures
        m.insert(h, e).contains_key(h),
        m.insert(h, e)[h] == e,
        !m.insert(h, e).remove(h).contains_key(h),
{
}

/// The lowest free handle of a table is unique: `push`'s contract hands out
/// the one lowest free value.
pub proof fn lemma_lowest_free_unique(m: Map<u32, ResourceEntry>, a: u32, b: u32)
    requires
        is_lowest_free(m, a),
        is_lowest_free(m, b),
    ensures
        a == b,
{
    if a < b {
        assert(m.contains_key(a));
    }
    if b < a {
        assert(m.contains_key(b));
    }
}

/// A handle already held by the table is never handed out by `push` again
/// while it stays held: along any sequence of pushes (which only ever add
/// entries) every earlier handle is still held when a later push picks its
/// slot, so the returned handles are pairwise distinct.
pub proof fn lemma_lowest_free_is_fresh(m: Map<u32, ResourceEntry>, held: u32, fresh: u32)
    requires
        m.contains_key(held),
        is_lowest_free(m, fresh),
    ensures
        held != fresh,
{
}

/// Two successive pushes return distinct handles: the first handle is held by
/// the table when the second push picks its slot, so the second cannot pick
/// it again. By induction along any sequence of pushes, all returned handles
/// are pairwise distinct.
pub proof fn lemma_push_handles_distinct(
    m0: Map<u32, ResourceEntry>,
    h1: u32,
    e1: ResourceEntry,
    h2: u32,
)
    requires
        is_lowest_free(m0, h1),
        is_lowest_free(m0.insert(h1, e1), h2),
    ensures
        h1 != h2,
{
    assert(m0.insert(h1, e1).contains_key(h1));
}

} // verus!
