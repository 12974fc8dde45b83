use vstd::prelude::*;

verus! {

/// Bytes stored under `path`, if any.  Entries are scanned front to back
/// and the first match wins, so a newer entry for a path shadows an older
/// one.
pub open spec fn blob_find(s: Seq<(String, Vec<u8>)>, path: Seq<char>) -> Option<Seq<u8>>
    decreases s.len(),
{
    if s.len() == 0 {
        None
    } else if s[0].0@ == path {
        Some(s[0].1@)
    } else {
        blob_find(s.drop_first(), path)
    }
}

/// Byte storage addressed by a locator string, kept in memory.
///
/// Uploaded and derived artifacts live here.  A write prepends an entry and
/// thereby shadows any earlier bytes under the same locator; a read returns
/// the most recently written bytes.  `read_only` lets a harness refuse
/// writes, the way a full or unwritable real store would.
#[derive(Debug)]
pub struct BlobStore {
    pub entries: Vec<(String, Vec<u8>)>,
    pub read_only: bool,
}

impl BlobStore {
    /// An empty, writable store.
    pub fn new() -> (r: BlobStore)
        ensures
            r.entries@ == Seq::<(String, Vec<u8>)>::empty(),
            !r.read_only,
    {
        BlobStore { entries: Vec::new(), read_only: false }
    }

    /// The bytes stored under `path`, or `None` when the path holds none:
    /// the read failure of this store.
    pub fn read<'a>(&'a self, path: &String) -> (r: Option<&'a Vec<u8>>)
        ensures
            r matches Some(v) ==> blob_find(self.entries@, path@) == Some(v@),
            r is None ==> blob_find(self.entries@, path@) is None,
    {
        let n = self.entries.len();
        let mut i: usize = 0;
        proof {
            assert(self.entries@.skip(0) =~= self.entries@);
        }
        while i < n
            invariant
                0 <= i <= n,
                n == self.entries@.len(),
                blob_find(self.entries@, path@) == blob_find(
                    self.entries@.skip(i as int),
                    path@,
                ),
            decreases n - i,
        {
            proof {
                assert(self.entries@.skip(i as int)[0] == self.entries@[i as int]);
            }
            if self.entries[i].0.eq(path) {
                return Some(&self.entries[i].1);
            }
            proof {
                assert(self.entries@.skip(i as int).drop_first() =~= self.entries@.skip(
                    i + 1,
                ));
            }
            i = i + 1;
        }
        None
    }

    /// Whether `path` currently holds bytes.
    pub fn has_path(&self, path: &String) -> (r: bool)
        ensures
            r == (blob_find(self.entries@, path@) is Some),
    {
        self.read(path).is_some()
    }

    /// Stores `data` under `path`, shadowing any earlier bytes there.
    /// Returns whether the write was accepted; a read-only store refuses it
    /// and keeps every entry as it was.
    pub fn write(&mut self, path: &String, data: Vec<u8>) -> (r: bool)
        ensures
            r == !old(self).read_only,
            final(self).read_only == old(self).read_only,
            !r ==> final(self).entries@ == old(self).entries@,
            r ==> blob_find(final(self).entries@, path@) == Some(data@),
            r ==> forall|q: Seq<char>|
                q != path@ ==> #[trigger] blob_find(final(self).entries@, q) == blob_find(
                    old(self).entries@,
                    q,
                ),
    {
        if self.read_only {
            return false;
        }
        let ghost pre = self.entries@;
        let entry = (path.clone(), data);
        self.entries.insert(0, entry);
        proof {
            assert(self.entries@.drop_first() =~= pre);
            assert(self.entries@[0] == entry);
        }
        true
    }

    /// Removes every entry under `path`, so that a later read of it fails.
    /// This is how a harness makes the store lose bytes under a job's feet.
    pub fn remove(&mut self, path: &String)
        ensures
            final(self).read_only == old(self).read_only,
            blob_find(final(self).entries@, path@) is None,
            forall|q: Seq<char>|
                q != path@ ==> #[trigger] blob_find(final(self).entries@, q) == blob_find(
                    old(self).entries@,
                    q,
                ),
    {
        let n = self.entries.len();
        let mut kept: Vec<(String, Vec<u8>)> = Vec::new();
        let mut i: usize = 0;
        while i < n
            invariant
                0 <= i <= n,
                n == self.entries@.len(),
                self.entries@ == old(self).entries@,
                self.read_only == old(self).read_only,
                blob_find(kept@, path@) is None,
                forall|q: Seq<char>|
                    q != path@ ==> #[trigger] blob_find(kept@, q) == blob_find(
                        self.entries@.take(i as int),
                        q,
                    ),
            decreases n - i,
        {
            let ghost pre_kept = kept@;
            if !self.entries[i].0.eq(path) {
                let e = (self.entries[i].0.clone(), self.entries[i].1.clone());
                assert(e.0@ == self.entries@[i as int].0@);
                kept.push(e);
            }
            proof {
                lemma_blob_find_take_step(old(self).entries@, path@, pre_kept, kept@, i as int);
            }
            i = i + 1;
        }
        proof {
            assert(self.entries@.take(n as int) =~= self.entries@);
        }
        self.entries = kept;
    }

    /// Marks the store writable or read-only.
    pub fn set_read_only(&mut self, read_only: bool)
        ensures
            final(self).entries@ == old(self).entries@,
            final(self).read_only == read_only,
    {
        self.read_only = read_only;
    }
}

/// Appending one entry to `s` changes `blob_find` only where `s` had no
/// entry, and only for the appended path.
proof fn lemma_blob_find_push(s: Seq<(String, Vec<u8>)>, e: (String, Vec<u8>), q: Seq<char>)
    ensures
        blob_find(s.push(e), q) == (if blob_find(s, q) is Some {
            blob_find(s, q)
        } else if e.0@ == q {
            Some(e.1@)
        } else {
            None
        }),
    decreases s.len(),
{
    if s.len() == 0 {
        assert(s.push(e)[0] == e);
        assert(s.push(e).drop_first() =~= Seq::<(String, Vec<u8>)>::empty());
        assert(blob_find(s, q) is None);
        if e.0@ == q {
            assert(blob_find(s.push(e), q) == Some(e.1@));
        } else {
            assert(blob_find(s.push(e), q) == blob_find(s.push(e).drop_first(), q));
            assert(blob_find(s.push(e), q) is None);
        }
    } else {
        assert(s.push(e)[0] == s[0]);
        assert(s.push(e).drop_first() =~= s.drop_first().push(e));
        lemma_blob_find_push(s.drop_first(), e, q);
        if s[0].0@ == q {
            assert(blob_find(s.push(e), q) == Some(s[0].1@));
            assert(blob_find(s, q) == Some(s[0].1@));
        } else {
            assert(blob_find(s.push(e), q) == blob_find(s.drop_first().push(e), q));
            assert(blob_find(s, q) == blob_find(s.drop_first(), q));
        }
    }
}

/// One step of the filtering loop in `remove` keeps the invariant: the kept
/// entries find exactly what the processed prefix finds, except under the
/// removed path.
proof fn lemma_blob_find_take_step(
    s: Seq<(String, Vec<u8>)>,
    path: Seq<char>,
    pre_kept: Seq<(String, Vec<u8>)>,
    kept: Seq<(String, Vec<u8>)>,
    i: int,
)
    requires
        0 <= i < s.len(),
        blob_find(pre_kept, path) is None,
        forall|q: Seq<char>|
            q != path ==> #[trigger] blob_find(pre_kept, q) == blob_find(s.take(i), q),
        if s[i].0@ == path {
            kept == pre_kept
        } else {
            kept.len() == pre_kept.len() + 1 && kept =~= pre_kept.push(kept.last())
                && kept.last().0@ == s[i].0@ && kept.last().1@ == s[i].1@
        },
    ensures
        blob_find(kept, path) is None,
        forall|q: Seq<char>|
            q != path ==> #[trigger] blob_find(kept, q) == blob_find(s.take(i + 1), q),
{
    assert forall|q: Seq<char>| q != path implies #[trigger] blob_find(kept, q) == blob_find(
        s.take(i + 1),
        q,
    ) by {
        lemma_blob_find_push(s.take(i), s[i], q);
        assert(s.take(i + 1) =~= s.take(i).push(s[i]));
        if s[i].0@ != path {
            lemma_blob_find_push(pre_kept, kept.last(), q);
        }
    }
    if s[i].0@ != path {
        lemma_blob_find_push(pre_kept, kept.last(), path);
    }
}

} // verus!
