use std::io::Read;

use compression_jobs::blob::BlobStore;
use compression_jobs::dtos::CompressionLevel;
use compression_jobs::dtos::CreateFile;
use compression_jobs::errors::ApiError;
use compression_jobs::handlers::compress_file_handler::CompressionHandler;
use compression_jobs::helpers::env::Env;
use compression_jobs::helpers::file::FileHelper;
use compression_jobs::models::FileStatus;
use compression_jobs::scheduler::run_task;
use compression_jobs::scheduler::WorkUnit;
use compression_jobs::services::compressed_file_service::CompressedFileService;
use compression_jobs::services::file_service::FileService;

fn test_env() -> Env {
    Env::new(
        String::new(),
        "127.0.0.1".to_string(),
        "3000".to_string(),
        "uploads".to_string(),
        "compressed".to_string(),
    )
}

fn handler() -> CompressionHandler {
    CompressionHandler::new(test_env(), FileService::new(), CompressedFileService::new())
}

/// Registers an uploaded file and stores its bytes, returning its id as a
/// decimal string.
fn upload(h: &mut CompressionHandler, blob: &mut BlobStore, name: &str, bytes: &[u8]) -> String {
    let record = h
        .file_service
        .create(CreateFile { file_ref: name.to_string(), size: bytes.len() as u64 })
        .expect("file record created");
    let path = FileHelper::get_uploaded_file_path(name, "uploads").unwrap();
    assert!(blob.write(&path, bytes.to_vec()));
    record.id.to_string()
}

fn gunzip(bytes: &[u8]) -> Vec<u8> {
    let mut decoder = flate2::read::GzDecoder::new(bytes);
    let mut out = Vec::new();
    decoder.read_to_end(&mut out).expect("valid gzip stream");
    out
}

#[test]
fn initiate_returns_compressing_with_normalized_level() {
    let mut h = handler();
    let mut blob = BlobStore::new();
    let id = upload(&mut h, &mut blob, "a.bin", b"payload");
    for (requested, stored) in [(0u32, 0i32), (1, 1), (6, 6), (9, 9), (10, 6), (4096, 6)] {
        let (job, _work) = h
            .initiate(&blob, &id, CompressionLevel { level: requested })
            .expect("job created");
        assert_eq!(job.status, FileStatus::Compressing);
        assert_eq!(job.level, stored);
        assert_eq!(job.alg, "gzip");
    }
}

#[test]
fn initiate_level_zero_stores_engine_no_compression_level() {
    let mut h = handler();
    let mut blob = BlobStore::new();
    let id = upload(&mut h, &mut blob, "b.bin", b"payload");
    let (job, _work) = h.initiate(&blob, &id, CompressionLevel { level: 0 }).unwrap();
    assert_eq!(job.level, flate2::Compression::none().level() as i32);
}

#[test]
fn initiate_unknown_file_creates_no_job() {
    let mut h = handler();
    let blob = BlobStore::new();
    let r = h.initiate(&blob, "12345", CompressionLevel { level: 6 });
    assert_eq!(r.err(), Some(ApiError::NotFound));
    assert_eq!(h.compressed_file_service.jobs.len(), 0);
}

#[test]
fn initiate_missing_bytes_is_not_found() {
    let mut h = handler();
    let mut blob = BlobStore::new();
    let id = upload(&mut h, &mut blob, "c.bin", b"payload");
    let path = FileHelper::get_uploaded_file_path("c.bin", "uploads").unwrap();
    blob.remove(&path);
    let r = h.initiate(&blob, &id, CompressionLevel { level: 6 });
    assert_eq!(r.err(), Some(ApiError::NotFound));
    assert_eq!(h.compressed_file_service.jobs.len(), 0);
}

#[test]
fn initiate_malformed_id_is_validation() {
    let mut h = handler();
    let blob = BlobStore::new();
    for bad in ["", "abc", "12x", "-4"] {
        let r = h.initiate(&blob, bad, CompressionLevel { level: 6 });
        assert_eq!(r.err(), Some(ApiError::Validation));
    }
    assert_eq!(h.compressed_file_service.jobs.len(), 0);
}

#[test]
fn initiate_exhausted_store_is_internal() {
    let mut h = handler();
    let mut blob = BlobStore::new();
    let id = upload(&mut h, &mut blob, "d.bin", b"payload");
    h.compressed_file_service.next_id = u64::MAX;
    let r = h.initiate(&blob, &id, CompressionLevel { level: 6 });
    assert_eq!(r.err(), Some(ApiError::Internal));
    assert_eq!(h.compressed_file_service.jobs.len(), 0);
}

#[test]
fn scenario_upload_initiate_poll_decompress() {
    let mut h = handler();
    let mut blob = BlobStore::new();
    let payload = b"ten bytes!";
    assert_eq!(payload.len(), 10);
    let id = upload(&mut h, &mut blob, "sample.bin", payload);

    let (job, work) = h.initiate(&blob, &id, CompressionLevel { level: 6 }).unwrap();
    assert_eq!(job.status, FileStatus::Compressing);
    assert_eq!(job.level, 6);

    let polled = h.get_status(&job.id.to_string()).unwrap();
    assert_eq!(polled.status, FileStatus::Compressing);

    run_task(&mut h, &mut blob, &work);

    let finished = h.get_status(&job.id.to_string()).unwrap();
    assert_eq!(finished.status, FileStatus::Passed);

    let stored = blob.read(&work.output_path).expect("artifact written");
    assert_eq!(gunzip(stored), payload.to_vec());
}

#[test]
fn scenario_read_failure_fails_job() {
    let mut h = handler();
    let mut blob = BlobStore::new();
    let id = upload(&mut h, &mut blob, "e.bin", b"payload");
    let (job, work) = h.initiate(&blob, &id, CompressionLevel { level: 6 }).unwrap();
    blob.remove(&work.input_path);

    run_task(&mut h, &mut blob, &work);

    let finished = h.get_status(&job.id.to_string()).unwrap();
    assert_eq!(finished.status, FileStatus::Failed);
    assert!(blob.read(&work.output_path).is_none());
}

#[test]
fn write_failure_fails_job() {
    let mut h = handler();
    let mut blob = BlobStore::new();
    let id = upload(&mut h, &mut blob, "f.bin", b"payload");
    let (job, work) = h.initiate(&blob, &id, CompressionLevel { level: 6 }).unwrap();
    blob.set_read_only(true);

    run_task(&mut h, &mut blob, &work);

    let finished = h.get_status(&job.id.to_string()).unwrap();
    assert_eq!(finished.status, FileStatus::Failed);
}

#[test]
fn status_is_monotonic_once_terminal() {
    let mut h = handler();
    let mut blob = BlobStore::new();
    let id = upload(&mut h, &mut blob, "g.bin", b"payload");
    let (job, work) = h.initiate(&blob, &id, CompressionLevel { level: 6 }).unwrap();
    run_task(&mut h, &mut blob, &work);
    assert_eq!(h.get_status(&job.id.to_string()).unwrap().status, FileStatus::Passed);

    // A straggling or repeated outcome report must not move the job again.
    h.complete(job.id, false);
    assert_eq!(h.get_status(&job.id.to_string()).unwrap().status, FileStatus::Passed);
    h.complete(job.id, true);
    assert_eq!(h.get_status(&job.id.to_string()).unwrap().status, FileStatus::Passed);
}

#[test]
fn complete_on_unknown_job_only_logs() {
    let mut h = handler();
    assert!(h.logger.messages.is_empty());
    h.complete(12345, true);
    assert_eq!(h.compressed_file_service.jobs.len(), 0);
    assert_eq!(h.logger.messages, vec!["Failed to update file status"]);
}

#[test]
fn blob_write_shadows_older_bytes() {
    let mut blob = BlobStore::new();
    let path = "artifact.bin".to_string();
    assert!(blob.write(&path, vec![1]));
    assert!(blob.write(&path, vec![2, 3]));
    assert_eq!(blob.read(&path), Some(&vec![2, 3]));
    blob.remove(&path);
    assert!(blob.read(&path).is_none());
}

#[test]
fn get_status_unknown_id_is_not_found_never_internal() {
    let mut h = handler();
    let mut blob = BlobStore::new();
    let id = upload(&mut h, &mut blob, "h.bin", b"payload");
    let (_job, work) = h.initiate(&blob, &id, CompressionLevel { level: 6 }).unwrap();
    run_task(&mut h, &mut blob, &work);
    for unknown in ["0", "7", "123456789", "18446744073709551615"] {
        let r = h.get_status(unknown);
        assert_eq!(r.err(), Some(ApiError::NotFound));
    }
    assert_eq!(h.get_status("not-a-number").err(), Some(ApiError::Validation));
}

#[test]
fn concurrent_jobs_have_independent_outcomes() {
    let mut h = handler();
    let mut blob = BlobStore::new();
    let mut jobs: Vec<(u64, WorkUnit)> = Vec::new();
    for name in ["one.bin", "two.bin", "three.bin", "four.bin"] {
        let id = upload(&mut h, &mut blob, name, name.as_bytes());
        let (job, work) = h.initiate(&blob, &id, CompressionLevel { level: 6 }).unwrap();
        jobs.push((job.id, work));
    }
    // The second job loses its input before its task runs.
    blob.remove(&jobs[1].1.input_path);

    // Tasks report back in an order unrelated to creation order.
    for k in [2usize, 0, 3, 1] {
        let work = WorkUnit {
            job_id: jobs[k].1.job_id,
            input_path: jobs[k].1.input_path.clone(),
            output_path: jobs[k].1.output_path.clone(),
            level: jobs[k].1.level,
        };
        run_task(&mut h, &mut blob, &work);
    }

    for (k, (job_id, _)) in jobs.iter().enumerate() {
        let status = h.get_status(&job_id.to_string()).unwrap().status;
        if k == 1 {
            assert_eq!(status, FileStatus::Failed);
        } else {
            assert_eq!(status, FileStatus::Passed);
        }
    }
}
