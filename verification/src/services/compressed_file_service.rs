use vstd::prelude::*;

use crate::dtos::CreateCompressedFile;
use crate::errors::ApiError;
use crate::models::CompressedFile;
use crate::models::FileStatus;

verus! {

/// Effective compression level for a requested one: `1..=9` pass through,
/// `0` is the engine's "no compression" level, and anything else falls back
/// to the engine's default level.
pub open spec fn normal_level(requested: u32) -> u32 {
    if requested == 0 {
        0
    } else if requested <= 9 {
        requested
    } else {
        6
    }
}

/// The first record in `jobs` whose id is `id`, if any.  The store keeps
/// ids unique, so the first match is the only one.
pub open spec fn spec_find(jobs: Seq<CompressedFile>, id: u64) -> Option<CompressedFile>
    decreases jobs.len(),
{
    if jobs.len() == 0 {
        None
    } else if jobs[0].id == id {
        Some(jobs[0])
    } else {
        spec_find(jobs.drop_first(), id)
    }
}

/// `j` with its status set to `status` when its id is `id`, else unchanged.
pub open spec fn update_one(j: CompressedFile, id: u64, status: FileStatus) -> CompressedFile {
    if j.id == id {
        CompressedFile { status, ..j }
    } else {
        j
    }
}

/// The store after a status update: every record under `id` carries
/// `status`, every other record is untouched.
pub open spec fn update_spec(
    jobs: Seq<CompressedFile>,
    id: u64,
    status: FileStatus,
) -> Seq<CompressedFile> {
    jobs.map_values(|j: CompressedFile| update_one(j, id, status))
}

/// A record is found exactly when some position holds its id.
pub proof fn lemma_spec_find_exists(jobs: Seq<CompressedFile>, id: u64)
    ensures
        (spec_find(jobs, id) is Some) <==> exists|k: int|
            0 <= k < jobs.len() && (#[trigger] jobs[k].id) == id,
    decreases jobs.len(),
{
    if jobs.len() > 0 {
        lemma_spec_find_exists(jobs.drop_first(), id);
        if jobs[0].id == id {
        } else {
            assert forall|k: int|
                0 <= k < jobs.drop_first().len() && (#[trigger] jobs.drop_first()[k].id)
                    == id implies 0 <= k + 1 < jobs.len() && jobs[k + 1].id == id by {}
            assert forall|k: int| 0 <= k < jobs.len() && (#[trigger] jobs[k].id) == id implies (
            exists|l: int|
                0 <= l < jobs.drop_first().len() && (#[trigger] jobs.drop_first()[l].id)
                    == id) by {
                assert(jobs.drop_first()[k - 1].id == id);
            }
        }
    }
}

/// A found record carries the id it was looked up under.
pub proof fn lemma_spec_find_id(jobs: Seq<CompressedFile>, id: u64)
    ensures
        spec_find(jobs, id) matches Some(j) ==> j.id == id,
    decreases jobs.len(),
{
    if jobs.len() > 0 && jobs[0].id != id {
        lemma_spec_find_id(jobs.drop_first(), id);
    }
}

/// Durable record of compression jobs, keyed by store-assigned identifier,
/// kept in memory.
#[derive(Debug)]
pub struct CompressedFileService {
    /// The job records, in order of creation.
    pub jobs: Vec<CompressedFile>,
    /// The identifier the next created record will get.
    pub next_id: u64,
}

impl CompressedFileService {
    /// Identifiers are unique, and every one is below `next_id`, so a
    /// record created next cannot collide.
    pub open spec fn wf(&self) -> bool {
        &&& forall|k: int|
            0 <= k < self.jobs@.len() ==> (#[trigger] self.jobs@[k].id) < self.next_id
        &&& forall|k: int, l: int| #![trigger self.jobs@[k].id, self.jobs@[l].id]
            0 <= k < l < self.jobs@.len() ==> self.jobs@[k].id != self.jobs@[l].id
    }

    /// An empty store.  Identifiers start at 1.
    pub fn new() -> (r: CompressedFileService)
        ensures
            r.wf(),
            r.jobs@ == Seq::<CompressedFile>::empty(),
            r.next_id == 1,
    {
        CompressedFileService { jobs: Vec::new(), next_id: 1 }
    }

    /// Normalizes the requested level against the engine's constants and
    /// inserts a job record in state `Compressing`, id assigned atomically
    /// with the insertion.  The returned level is the one that will actually
    /// run, and it is what the record stores.  Insertion fails only when the
    /// identifier space is exhausted, and then changes nothing.
    pub fn create(&mut self, create_compressed_file: CreateCompressedFile) -> (r: (
        u32,
        Result<CompressedFile, ApiError>,
    ))
        requires
            old(self).wf(),
        ensures
            final(self).wf(),
            r.0 == normal_level(create_compressed_file.level),
            old(self).next_id < u64::MAX ==> (r.1 matches Ok(job) && job.id == old(self).next_id
                && job.status == FileStatus::Compressing && job.file_ref
                == create_compressed_file.file_ref && job.level == normal_level(
                create_compressed_file.level,
            ) as i32 && job.alg == create_compressed_file.alg && final(self).jobs@ == old(
                self,
            ).jobs@.push(job) && final(self).next_id == old(self).next_id + 1),
            old(self).next_id == u64::MAX ==> (r.1 matches Err(e) && e == ApiError::Internal
                && final(self).jobs@ == old(self).jobs@ && final(self).next_id == old(
                self,
            ).next_id),
    {
        let compression_level: u32 = if create_compressed_file.level == 0 {
            crate::engine::no_compression_level()
        } else if create_compressed_file.level <= 9 {
            crate::engine::explicit_compression_level(create_compressed_file.level)
        } else {
            crate::engine::default_compression_level()
        };
        if self.next_id == u64::MAX {
            return (compression_level, Err(ApiError::Internal));
        }
        let job = CompressedFile {
            id: self.next_id,
            status: FileStatus::Compressing,
            file_ref: create_compressed_file.file_ref,
            level: compression_level as i32,
            alg: create_compressed_file.alg,
        };
        let out = job.clone();
        self.jobs.push(job);
        self.next_id = self.next_id + 1;
        (compression_level, Ok(out))
    }

    /// Sets the status of the record under `id`, or reports `NotFound` when
    /// the store holds none and changes nothing.  The update itself is
    /// unconditional; refusing to leave a terminal state is the lifecycle
    /// controller's rule, enforced before this is called.
    pub fn update_status(&mut self, id: u64, status: FileStatus) -> (r: Result<(), ApiError>)
        ensures
            final(self).next_id == old(self).next_id,
            r is Ok <==> spec_find(old(self).jobs@, id) is Some,
            r is Ok ==> final(self).jobs@ == update_spec(old(self).jobs@, id, status),
            r matches Err(e) ==> e == ApiError::NotFound && final(self).jobs@ == old(
                self,
            ).jobs@,
            old(self).wf() ==> final(self).wf(),
    {
        let n = self.jobs.len();
        let mut i: usize = 0;
        let mut found = false;
        while i < n
            invariant
                0 <= i <= n,
                n == self.jobs@.len(),
                self.next_id == old(self).next_id,
                forall|k: int| i <= k < n ==> self.jobs@[k] == #[trigger] old(self).jobs@[k],
                forall|k: int|
                    0 <= k < i ==> self.jobs@[k] == update_one(
                        #[trigger] old(self).jobs@[k],
                        id,
                        status,
                    ),
                found <==> exists|k: int|
                    0 <= k < i && (#[trigger] old(self).jobs@[k].id) == id,
            decreases n - i,
        {
            if self.jobs[i].id == id {
                proof {
                    assert(old(self).jobs@[i as int].id == id);
                }
                let mut updated = self.jobs[i].clone();
                updated.status = status;
                self.jobs[i] = updated;
                found = true;
            } else {
                proof {
                    assert(old(self).jobs@[i as int].id != id);
                }
            }
            i = i + 1;
        }
        proof {
            lemma_spec_find_exists(old(self).jobs@, id);
            if found {
                assert(self.jobs@ =~= update_spec(old(self).jobs@, id, status));
            } else {
                assert(self.jobs@ =~= old(self).jobs@);
            }
        }
        if found {
            Ok(())
        } else {
            Err(ApiError::NotFound)
        }
    }

    /// The record with the given id, or `NotFound` when the store holds
    /// none.  An unknown id is never an internal failure.
    pub fn find_one(&self, id: u64) -> (r: Result<CompressedFile, ApiError>)
        ensures
            r matches Ok(job) ==> spec_find(self.jobs@, id) == Some(job),
            r matches Err(e) ==> e == ApiError::NotFound && spec_find(self.jobs@, id) is None,
    {
        let n = self.jobs.len();
        let mut i: usize = 0;
        proof {
            assert(self.jobs@.skip(0) =~= self.jobs@);
        }
        while i < n
            invariant
                0 <= i <= n,
                n == self.jobs@.len(),
                spec_find(self.jobs@, id) == spec_find(self.jobs@.skip(i as int), id),
            decreases n - i,
        {
            proof {
                assert(self.jobs@.skip(i as int)[0] == self.jobs@[i as int]);
            }
            if self.jobs[i].id == id {
                return Ok(self.jobs[i].clone());
            }
            proof {
                assert(self.jobs@.skip(i as int).drop_first() =~= self.jobs@.skip(i + 1));
            }
            i = i + 1;
        }
        Err(ApiError::NotFound)
    }
}

} // verus!
