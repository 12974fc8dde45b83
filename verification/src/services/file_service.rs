use vstd::prelude::*;

use crate::dtos::CreateFile;
use crate::errors::ApiError;
use crate::models::File;

verus! {

/// The first record in `files` whose id is `id`, if any.  The store keeps
/// ids unique, so the first match is the only one.
pub open spec fn file_find(files: Seq<File>, id: u64) -> Option<File>
    decreases files.len(),
{
    if files.len() == 0 {
        None
    } else if files[0].id == id {
        Some(files[0])
    } else {
        file_find(files.drop_first(), id)
    }
}

/// Durable record of uploaded files, keyed by store-assigned identifier,
/// kept in memory.
#[derive(Debug)]
pub struct FileService {
    /// The records, in order of creation.
    pub files: Vec<File>,
    /// The identifier the next created record will get.
    pub next_id: u64,
}

impl FileService {
    /// Identifiers are unique, and every one is below `next_id`, so a
    /// record created next cannot collide.
    pub open spec fn wf(&self) -> bool {
        &&& forall|k: int|
            0 <= k < self.files@.len() ==> (#[trigger] self.files@[k].id) < self.next_id
        &&& forall|k: int, l: int| #![trigger self.files@[k].id, self.files@[l].id]
            0 <= k < l < self.files@.len() ==> self.files@[k].id != self.files@[l].id
    }

    /// An empty store.  Identifiers start at 1.
    pub fn new() -> (r: FileService)
        ensures
            r.wf(),
            r.files@ == Seq::<File>::empty(),
            r.next_id == 1,
    {
        FileService { files: Vec::new(), next_id: 1 }
    }

    /// Creates a record for one uploaded file and returns it, id assigned
    /// atomically with the insertion.  Fails only when the identifier space
    /// is exhausted, and then changes nothing.
    pub fn create(&mut self, file: CreateFile) -> (r: Result<File, ApiError>)
        requires
            old(self).wf(),
        ensures
            final(self).wf(),
            old(self).next_id < u64::MAX ==> (r matches Ok(f) && f.id == old(self).next_id
                && f.file_ref == file.file_ref && f.size == file.size && final(self).files@
                == old(self).files@.push(f) && final(self).next_id == old(self).next_id + 1),
            old(self).next_id == u64::MAX ==> (r matches Err(e) && e == ApiError::Internal
                && final(self).files@ == old(self).files@ && final(self).next_id == old(
                self,
            ).next_id),
    {
        if self.next_id == u64::MAX {
            return Err(ApiError::Internal);
        }
        let record = File { id: self.next_id, size: file.size, file_ref: file.file_ref };
        let out = record.clone();
        self.files.push(record);
        self.next_id = self.next_id + 1;
        Ok(out)
    }

    /// The record with the given id, or `NotFound` when the store holds
    /// none.
    pub fn find_one(&self, id: u64) -> (r: Result<File, ApiError>)
        ensures
            r matches Ok(f) ==> file_find(self.files@, id) == Some(f),
            r matches Err(e) ==> e == ApiError::NotFound && file_find(self.files@, id) is None,
    {
        let n = self.files.len();
        let mut i: usize = 0;
        proof {
            assert(self.files@.skip(0) =~= self.files@);
        }
        while i < n
            invariant
                0 <= i <= n,
                n == self.files@.len(),
                file_find(self.files@, id) == file_find(self.files@.skip(i as int), id),
            decreases n - i,
        {
            proof {
                assert(self.files@.skip(i as int)[0] == self.files@[i as int]);
            }
            if self.files[i].id == id {
                return Ok(self.files[i].clone());
            }
            proof {
                assert(self.files@.skip(i as int).drop_first() =~= self.files@.skip(i + 1));
            }
            i = i + 1;
        }
        Err(ApiError::NotFound)
    }
}

} // verus!
