use vstd::prelude::*;

use crate::handlers::compress_file_handler::complete_step;
use crate::handlers::compress_file_handler::lemma_spec_find_update;
use crate::handlers::compress_file_handler::outcome_status;
use crate::models::CompressedFile;
use crate::models::FileStatus;
use crate::services::compressed_file_service::lemma_spec_find_id;
use crate::services::compressed_file_service::spec_find;
use crate::services::compressed_file_service::update_one;
use crate::services::compressed_file_service::update_spec;

verus! {

/// One operation the lifecycle controller ever performs on the job
/// records: creating a job, or reconciling the outcome of its task.
pub enum StoreOp {
    Insert { job: CompressedFile },
    Complete { id: u64, ok: bool },
}

/// The job records after one controller operation.
pub open spec fn apply_op(jobs: Seq<CompressedFile>, op: StoreOp) -> Seq<CompressedFile> {
    match op {
        StoreOp::Insert { job } => jobs.push(job),
        StoreOp::Complete { id, ok } => complete_step(jobs, id, ok),
    }
}

/// The job records after a sequence of controller operations, applied in
/// order.
pub open spec fn apply_ops(jobs: Seq<CompressedFile>, ops: Seq<StoreOp>) -> Seq<CompressedFile>
    decreases ops.len(),
{
    if ops.len() == 0 {
        jobs
    } else {
        apply_ops(apply_op(jobs, ops[0]), ops.drop_first())
    }
}

/// Appending a record never changes what an existing id finds first.
pub proof fn lemma_spec_find_push(jobs: Seq<CompressedFile>, j: CompressedFile, id: u64)
    ensures
        spec_find(jobs.push(j), id) == (if spec_find(jobs, id) is Some {
            spec_find(jobs, id)
        } else if j.id == id {
            Some(j)
        } else {
            None::<CompressedFile>
        }),
    decreases jobs.len(),
{
    if jobs.len() == 0 {
        assert(jobs.push(j)[0] == j);
        assert(jobs.push(j).drop_first() =~= Seq::<CompressedFile>::empty());
    } else {
        assert(jobs.push(j)[0] == jobs[0]);
        assert(jobs.push(j).drop_first() =~= jobs.drop_first().push(j));
        lemma_spec_find_push(jobs.drop_first(), j, id);
    }
}

/// What an id finds after an outcome is reconciled: under any other id the
/// records read as before; under the reconciled id, a job still
/// `Compressing` is seen with the outcome's terminal status, any other job
/// is seen unchanged.
pub proof fn lemma_complete_step_find(jobs: Seq<CompressedFile>, cid: u64, ok: bool, id: u64)
    ensures
        id != cid ==> spec_find(complete_step(jobs, cid, ok), id) == spec_find(jobs, id),
        id == cid ==> spec_find(complete_step(jobs, cid, ok), id) == (match spec_find(jobs, id) {
            Some(j) => if j.status == FileStatus::Compressing {
                Some(update_one(j, cid, outcome_status(ok)))
            } else {
                Some(j)
            },
            None => None::<CompressedFile>,
        }),
{
    lemma_spec_find_id(jobs, cid);
    if spec_find(jobs, cid) matches Some(j) && j.status == FileStatus::Compressing {
        lemma_spec_find_update(jobs, id, cid, outcome_status(ok));
    }
}

/// No single controller operation moves a job out of a terminal state.
pub proof fn lemma_op_preserves_terminal(jobs: Seq<CompressedFile>, op: StoreOp, id: u64)
    requires
        spec_find(jobs, id) matches Some(j) && j.status.is_terminal(),
    ensures
        spec_find(apply_op(jobs, op), id) == spec_find(jobs, id),
{
    match op {
        StoreOp::Insert { job } => {
            lemma_spec_find_push(jobs, job, id);
        },
        StoreOp::Complete { id: cid, ok } => {
            lemma_complete_step_find(jobs, cid, ok, id);
        },
    }
}

/// A job's status is monotonic: once its record reads `Passed` or `Failed`,
/// no sequence of controller operations — later jobs being created, any
/// outcomes being reconciled — ever changes what is read under its id
/// again.
pub proof fn lemma_status_monotonic(jobs: Seq<CompressedFile>, ops: Seq<StoreOp>, id: u64)
    requires
        spec_find(jobs, id) matches Some(j) && j.status.is_terminal(),
    ensures
        spec_find(apply_ops(jobs, ops), id) == spec_find(jobs, id),
    decreases ops.len(),
{
    if ops.len() > 0 {
        lemma_op_preserves_terminal(jobs, ops[0], id);
        lemma_status_monotonic(apply_op(jobs, ops[0]), ops.drop_first(), id);
    }
}

/// Reconciling the outcomes of two different jobs commutes: each job's
/// terminal status depends only on its own outcome, not on the order in
/// which concurrent tasks report back.
pub proof fn lemma_complete_commutes(
    jobs: Seq<CompressedFile>,
    id1: u64,
    ok1: bool,
    id2: u64,
    ok2: bool,
)
    requires
        id1 != id2,
    ensures
        complete_step(complete_step(jobs, id1, ok1), id2, ok2) == complete_step(
            complete_step(jobs, id2, ok2),
            id1,
            ok1,
        ),
{
    let s1 = complete_step(jobs, id1, ok1);
    let s2 = complete_step(jobs, id2, ok2);
    lemma_complete_step_find(jobs, id1, ok1, id2);
    lemma_complete_step_find(jobs, id2, ok2, id1);
    let active1 = spec_find(jobs, id1) matches Some(j) && j.status == FileStatus::Compressing;
    let active2 = spec_find(jobs, id2) matches Some(j) && j.status == FileStatus::Compressing;
    if active1 && active2 {
        assert(complete_step(s1, id2, ok2) == update_spec(s1, id2, outcome_status(ok2)));
        assert(complete_step(s2, id1, ok1) == update_spec(s2, id1, outcome_status(ok1)));
        assert(update_spec(update_spec(jobs, id1, outcome_status(ok1)), id2, outcome_status(ok2))
            =~= update_spec(
            update_spec(jobs, id2, outcome_status(ok2)),
            id1,
            outcome_status(ok1),
        )) by {
            assert forall|k: int| 0 <= k < jobs.len() implies update_spec(
                update_spec(jobs, id1, outcome_status(ok1)),
                id2,
                outcome_status(ok2),
            )[k] == update_spec(
                update_spec(jobs, id2, outcome_status(ok2)),
                id1,
                outcome_status(ok1),
            )[k] by {}
        }
    } else if active1 {
        assert(s2 == jobs);
        assert(complete_step(s1, id2, ok2) == s1);
    } else if active2 {
        assert(s1 == jobs);
        assert(complete_step(s2, id1, ok1) == s2);
    } else {
        assert(s1 == jobs && s2 == jobs);
    }
}

} // verus!
