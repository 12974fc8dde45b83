use vstd::prelude::*;

use crate::blob::blob_find;
use crate::blob::BlobStore;
use crate::engine::gzip_bytes;
use crate::engine::gzip_of;
use crate::errors::TaskError;
use crate::handlers::compress_file_handler::complete_step;
use crate::helpers::logger::Logger;
use crate::handlers::compress_file_handler::CompressionHandler;
use crate::models::FileStatus;
use crate::services::compressed_file_service::spec_find;

verus! {

/// One unit of compression work, handed from the lifecycle controller to
/// the scheduler when a job is created.  `level` is already normalized.
#[derive(Debug)]
pub struct WorkUnit {
    pub job_id: u64,
    pub input_path: String,
    pub output_path: String,
    pub level: u32,
}

/// Reads the source bytes, runs the compression engine on them, and writes
/// the result.  A failure of any step is terminal: no retry happens, and
/// which step failed is reported.  On success the output locator holds
/// exactly the engine's stream for the input bytes, and no other locator
/// changed.
pub fn compress_file(
    blob: &mut BlobStore,
    input_path: &String,
    output_path: &String,
    level: u32,
) -> (r: Result<(), TaskError>)
    requires
        level <= 9,
    ensures
        final(blob).read_only == old(blob).read_only,
        ({
            match blob_find(old(blob).entries@, input_path@) {
                None => r matches Err(e) && e == TaskError::ReadFailed && final(blob).entries@
                    == old(blob).entries@,
                Some(data) => {
                    ||| (r matches Err(e) && e == TaskError::CompressFailed && final(blob).entries@ == old(blob).entries@)
                    ||| (old(blob).read_only && (r matches Err(e) && e == TaskError::WriteFailed
                        && final(blob).entries@ == old(blob).entries@))
                    ||| (!old(blob).read_only && r is Ok && blob_find(
                        final(blob).entries@,
                        output_path@,
                    ) == Some(gzip_of(data, level)) && (forall|q: Seq<char>|
                        q != output_path@ ==> #[trigger] blob_find(final(blob).entries@, q)
                            == blob_find(old(blob).entries@, q)))
                },
            }
        }),
        r is Ok ==> blob_find(old(blob).entries@, input_path@) is Some && !old(blob).read_only,
{
    let data = match blob.read(input_path) {
        Some(d) => d,
        None => {
            return Err(TaskError::ReadFailed);
        },
    };
    let compressed = match gzip_bytes(data, level) {
        Some(c) => c,
        None => {
            return Err(TaskError::CompressFailed);
        },
    };
    if blob.write(output_path, compressed) {
        Ok(())
    } else {
        Err(TaskError::WriteFailed)
    }
}

/// Runs one unit of work to completion and reports the outcome back to the
/// lifecycle controller, which moves the job to its terminal status.
///
/// Whatever the engine and the stores do, the task terminates cleanly: a
/// job found in `Compressing` ends `Passed` or `Failed`, and it ends
/// `Passed` only with the compressed artifact in place.  No record of any
/// other job changes.
pub fn run_task(handler: &mut CompressionHandler, blob: &mut BlobStore, work: &WorkUnit)
    requires
        old(handler).wf(),
        work.level <= 9,
    ensures
        final(handler).wf(),
        final(handler).env == old(handler).env,
        final(handler).file_service == old(handler).file_service,
        final(handler).compressed_file_service.next_id == old(
            handler,
        ).compressed_file_service.next_id,
        final(blob).read_only == old(blob).read_only,
        ({
            let pre_jobs = old(handler).compressed_file_service.jobs@;
            let post_jobs = final(handler).compressed_file_service.jobs@;
            match blob_find(old(blob).entries@, work.input_path@) {
                None => post_jobs == complete_step(pre_jobs, work.job_id, false) && final(blob).entries@ == old(blob).entries@,
                Some(data) => {
                    ||| (post_jobs == complete_step(pre_jobs, work.job_id, false) && final(blob).entries@ == old(blob).entries@)
                    ||| (!old(blob).read_only && post_jobs == complete_step(
                        pre_jobs,
                        work.job_id,
                        true,
                    ) && blob_find(final(blob).entries@, work.output_path@) == Some(
                        gzip_of(data, work.level),
                    ) && (forall|q: Seq<char>|
                        q != work.output_path@ ==> #[trigger] blob_find(final(blob).entries@, q)
                            == blob_find(old(blob).entries@, q)))
                },
            }
        }),
        (spec_find(old(handler).compressed_file_service.jobs@, work.job_id) matches Some(j)
            && j.status == FileStatus::Compressing) ==> (spec_find(
            final(handler).compressed_file_service.jobs@,
            work.job_id,
        ) matches Some(j2) && j2.status.is_terminal()),
{
    handler.logger.debug("Starting compression task");
    let outcome = compress_file(blob, &work.input_path, &work.output_path, work.level);
    let ok = outcome.is_ok();
    handler.complete(work.job_id, ok);
    handler.logger.debug("Compression task completed");
    proof {
        let pre_jobs = old(handler).compressed_file_service.jobs@;
        crate::services::compressed_file_service::lemma_spec_find_id(pre_jobs, work.job_id);
        if spec_find(pre_jobs, work.job_id) matches Some(j) && j.status
            == FileStatus::Compressing {
            crate::handlers::compress_file_handler::lemma_spec_find_update(
                pre_jobs,
                work.job_id,
                work.job_id,
                crate::handlers::compress_file_handler::outcome_status(ok),
            );
        }
    }
}

} // verus!
