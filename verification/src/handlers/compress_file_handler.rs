use vstd::prelude::*;

use crate::blob::blob_find;
use crate::blob::BlobStore;
use crate::dtos::CompressionLevel;
use crate::dtos::CreateCompressedFile;
use crate::errors::ApiError;
use crate::helpers::env::Env;
use crate::helpers::file::join_path;
use crate::helpers::file::with_gz;
use crate::helpers::file::FileHelper;
use crate::helpers::logger::DefaultLogger;
use crate::helpers::logger::Logger;
use crate::models::CompressedFile;
use crate::models::FileStatus;
use crate::scheduler::WorkUnit;
use crate::services::compressed_file_service::normal_level;
use crate::services::compressed_file_service::spec_find;
use crate::services::compressed_file_service::update_one;
use crate::services::compressed_file_service::update_spec;
use crate::services::compressed_file_service::CompressedFileService;
use crate::services::file_service::file_find;
use crate::services::file_service::FileService;
use crate::text::all_digits;
use crate::text::dec_val;
use crate::text::parse_id;

verus! {

/// The terminal status a task outcome maps to: success passes, any failure
/// fails.
pub open spec fn outcome_status(ok: bool) -> FileStatus {
    if ok {
        FileStatus::Passed
    } else {
        FileStatus::Failed
    }
}

/// The job records after the lifecycle controller reconciles the outcome of
/// the task owning `id`: a job still `Compressing` moves to the outcome's
/// terminal status; a job already terminal, or absent, is left untouched.
pub open spec fn complete_step(jobs: Seq<CompressedFile>, id: u64, ok: bool) -> Seq<
    CompressedFile,
> {
    match spec_find(jobs, id) {
        Some(j) => if j.status == FileStatus::Compressing {
            update_spec(jobs, id, outcome_status(ok))
        } else {
            jobs
        },
        None => jobs,
    }
}

/// A well-formed identifier in its decimal form.
pub open spec fn valid_id(s: Seq<char>) -> bool {
    s.len() > 0 && all_digits(s) && dec_val(s) <= u64::MAX
}

/// The job lifecycle controller.
///
/// It creates job records, derives the unit of work a scheduler runs,
/// reconciles terminal statuses, and serves status reads.  The record
/// stores and the logger are injected at construction.
#[derive(Debug)]
pub struct CompressionHandler {
    pub env: Env,
    pub logger: DefaultLogger,
    pub file_service: FileService,
    pub compressed_file_service: CompressedFileService,
}

impl CompressionHandler {
    /// Both record stores are well formed.
    pub open spec fn wf(&self) -> bool {
        self.file_service.wf() && self.compressed_file_service.wf()
    }

    /// A controller over the given configuration and stores, with a fresh
    /// logger.
    pub fn new(
        env: Env,
        file_service: FileService,
        compressed_file_service: CompressedFileService,
    ) -> (r: CompressionHandler)
        ensures
            r.env == env,
            r.file_service == file_service,
            r.compressed_file_service == compressed_file_service,
            r.logger.messages@ == Seq::<String>::empty(),
    {
        CompressionHandler {
            env,
            file_service,
            compressed_file_service,
            logger: DefaultLogger::new("CompressionHandler"),
        }
    }

    /// Starts compression of the uploaded file named by `id` at the
    /// requested level.
    ///
    /// The identifier is validated, the source record and its bytes are
    /// resolved, the level is normalized, and a job record is inserted in
    /// state `Compressing`.  On success the fresh record is returned at
    /// once, together with the unit of work for the scheduler; the caller
    /// does not wait for compression.  On any failure no job record is
    /// created and no work is handed out.
    ///
    /// Two jobs against the same source derive the same output locator:
    /// when their tasks run concurrently, the later writer's bytes are the
    /// ones that persist, although both records end `Passed`.  Nothing here
    /// invents per-job output names to hide that.
    pub fn initiate(&mut self, blob: &BlobStore, id: &str, query: CompressionLevel) -> (r:
        Result<(CompressedFile, WorkUnit), ApiError>)
        requires
            old(self).wf(),
        ensures
            final(self).wf(),
            final(self).env == old(self).env,
            final(self).file_service == old(self).file_service,
            final(self).logger == old(self).logger,
            r is Err ==> final(self).compressed_file_service.jobs@ == old(
                self,
            ).compressed_file_service.jobs@ && final(self).compressed_file_service.next_id == old(
                self,
            ).compressed_file_service.next_id,
            ({
                if !valid_id(id@) {
                    r matches Err(e) && e == ApiError::Validation
                } else {
                    let pid = dec_val(id@) as u64;
                    match file_find(old(self).file_service.files@, pid) {
                        None => r matches Err(e) && e == ApiError::NotFound,
                        Some(f) => {
                            let input = join_path(old(self).env.uploads_dir@, f.file_ref@);
                            if blob_find(blob.entries@, input) is None {
                                r matches Err(e) && e == ApiError::NotFound
                            } else if old(self).compressed_file_service.next_id == u64::MAX {
                                r matches Err(e) && e == ApiError::Internal
                            } else {
                                r matches Ok(p) && ({
                                    let job = p.0;
                                    let work = p.1;
                                    &&& job.id == old(self).compressed_file_service.next_id
                                    &&& job.status == FileStatus::Compressing
                                    &&& job.file_ref == f.file_ref
                                    &&& job.level == normal_level(query.level) as i32
                                    &&& job.alg@ == "gzip"@
                                    &&& final(self).compressed_file_service.jobs@ == old(
                                        self,
                                    ).compressed_file_service.jobs@.push(job)
                                    &&& final(self).compressed_file_service.next_id == old(
                                        self,
                                    ).compressed_file_service.next_id + 1
                                    &&& work.job_id == job.id
                                    &&& work.input_path@ == input
                                    &&& work.output_path@ == with_gz(
                                        join_path(old(self).env.compressed_dir@, f.file_ref@),
                                    )
                                    &&& work.level == normal_level(query.level)
                                })
                            }
                        },
                    }
                }
            }),
    {
        let pid: u64 = match parse_id(id) {
            Some(v) => v,
            None => {
                return Err(ApiError::Validation);
            },
        };
        let file = match self.file_service.find_one(pid) {
            Ok(f) => f,
            Err(_) => {
                return Err(ApiError::NotFound);
            },
        };
        let input_path = FileHelper::get_uploaded_file_path(
            file.file_ref.as_str(),
            self.env.uploads_dir.as_str(),
        ).unwrap();
        if !blob.has_path(&input_path) {
            return Err(ApiError::NotFound);
        }
        let output_path = FileHelper::get_compressed_file_path(
            file.file_ref.as_str(),
            self.env.compressed_dir.as_str(),
        ).unwrap();
        let (compression_level, created) = self.compressed_file_service.create(
            CreateCompressedFile {
                file_ref: file.file_ref,
                level: query.level,
                alg: "gzip".to_owned(),
            },
        );
        match created {
            Ok(row) => {
                let work = WorkUnit {
                    job_id: row.id,
                    input_path,
                    output_path,
                    level: compression_level,
                };
                Ok((row, work))
            },
            Err(e) => Err(e),
        }
    }

    /// Reconciles the outcome of the task owning `job_id`: success moves the
    /// job to `Passed`, failure to `Failed`.  A job that is not in
    /// `Compressing` is left as it is — no transition leaves a terminal
    /// state.  A failure of the status update is recorded in the log and
    /// never raised back to the scheduler.
    pub fn complete(&mut self, job_id: u64, ok: bool)
        ensures
            final(self).env == old(self).env,
            final(self).file_service == old(self).file_service,
            final(self).compressed_file_service.next_id == old(
                self,
            ).compressed_file_service.next_id,
            old(self).compressed_file_service.wf() ==> final(self).compressed_file_service.wf(),
            final(self).compressed_file_service.jobs@ == complete_step(
                old(self).compressed_file_service.jobs@,
                job_id,
                ok,
            ),
            spec_find(old(self).compressed_file_service.jobs@, job_id) is Some ==> final(self).logger == old(self).logger,
            spec_find(old(self).compressed_file_service.jobs@, job_id) is None ==> final(self).logger.recorded() == old(self).logger.recorded().push(
                "Failed to update file status"@,
            ),
    {
        let status = if ok {
            FileStatus::Passed
        } else {
            FileStatus::Failed
        };
        match self.compressed_file_service.find_one(job_id) {
            Ok(job) => {
                if job.status == FileStatus::Compressing {
                    let updated = self.compressed_file_service.update_status(job_id, status);
                    if updated.is_err() {
                        self.logger.error("Failed to update file status");
                    }
                }
            },
            Err(_) => {
                self.logger.error("Failed to update file status");
            },
        }
    }

    /// The current record of the job named by `id`: exactly what the most
    /// recent successful status update left there.  An unknown identifier is
    /// `NotFound`, never an internal failure; a malformed one is rejected as
    /// a validation error.
    pub fn get_status(&self, id: &str) -> (r: Result<CompressedFile, ApiError>)
        ensures
            ({
                if !valid_id(id@) {
                    r matches Err(e) && e == ApiError::Validation
                } else {
                    let pid = dec_val(id@) as u64;
                    match spec_find(self.compressed_file_service.jobs@, pid) {
                        Some(j) => r matches Ok(job) && job == j,
                        None => r matches Err(e) && e == ApiError::NotFound,
                    }
                }
            }),
    {
        let pid: u64 = match parse_id(id) {
            Some(v) => v,
            None => {
                return Err(ApiError::Validation);
            },
        };
        self.compressed_file_service.find_one(pid)
    }
}

/// Looking a job up commutes with a status update: an update under one id
/// changes what is found under that id exactly, and nothing under any other.
pub proof fn lemma_spec_find_update(
    jobs: Seq<CompressedFile>,
    id: u64,
    target: u64,
    status: FileStatus,
)
    ensures
        target != id ==> spec_find(update_spec(jobs, target, status), id) == spec_find(jobs, id),
        target == id ==> spec_find(update_spec(jobs, target, status), id) == match spec_find(
            jobs,
            id,
        ) {
            Some(j) => Some(update_one(j, target, status)),
            None => None,
        },
    decreases jobs.len(),
{
    if jobs.len() > 0 {
        assert(update_spec(jobs, target, status)[0] == update_one(jobs[0], target, status));
        assert(update_spec(jobs, target, status).drop_first() =~= update_spec(
            jobs.drop_first(),
            target,
            status,
        ));
        lemma_spec_find_update(jobs.drop_first(), id, target, status);
    }
}

} // verus!
