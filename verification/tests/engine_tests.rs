use std::io::Read;

use compression_jobs::blob::BlobStore;
use compression_jobs::errors::TaskError;
use compression_jobs::scheduler::compress_file;

fn gunzip(bytes: &[u8]) -> Vec<u8> {
    let mut decoder = flate2::read::GzDecoder::new(bytes);
    let mut out = Vec::new();
    decoder.read_to_end(&mut out).expect("valid gzip stream");
    out
}

#[test]
fn test_compress_file() {
    let input_path = "test_input.txt".to_string();
    let output_path = "test_output.gz".to_string();

    let mut blob = BlobStore::new();
    let mut data = b"This is a test file for compression.".to_vec();
    data.push(b'\n');
    assert!(blob.write(&input_path, data));

    compress_file(&mut blob, &input_path, &output_path, 6).unwrap();

    let compressed = blob.read(&output_path).unwrap();
    assert!(compressed.len() > 0, "Compressed file should not be empty");
}

#[test]
fn compress_is_deterministic() {
    let mut blob = BlobStore::new();
    let payload = b"abcabcabcabc-abcabcabcabc".to_vec();
    let first_in = "first.bin".to_string();
    let second_in = "second.bin".to_string();
    let first_out = "first.gz".to_string();
    let second_out = "second.gz".to_string();
    assert!(blob.write(&first_in, payload.clone()));
    assert!(blob.write(&second_in, payload));

    compress_file(&mut blob, &first_in, &first_out, 6).unwrap();
    compress_file(&mut blob, &second_in, &second_out, 6).unwrap();

    let a = blob.read(&first_out).unwrap().clone();
    let b = blob.read(&second_out).unwrap().clone();
    assert_eq!(a, b);
}

#[test]
fn compress_round_trips() {
    let mut blob = BlobStore::new();
    let payload = b"ten bytes!".to_vec();
    let input = "artifact.bin".to_string();
    let output = "artifact.gz".to_string();
    assert!(blob.write(&input, payload.clone()));

    compress_file(&mut blob, &input, &output, 9).unwrap();

    let stored = blob.read(&output).unwrap();
    assert_eq!(gunzip(stored), payload);
}

#[test]
fn compress_reports_missing_input() {
    let mut blob = BlobStore::new();
    let input = "absent.bin".to_string();
    let output = "absent.gz".to_string();
    let r = compress_file(&mut blob, &input, &output, 6);
    assert_eq!(r, Err(TaskError::ReadFailed));
    assert!(blob.read(&output).is_none());
}

#[test]
fn compress_reports_refused_write() {
    let mut blob = BlobStore::new();
    let input = "source.bin".to_string();
    let output = "source.gz".to_string();
    assert!(blob.write(&input, vec![1, 2, 3]));
    blob.set_read_only(true);
    let r = compress_file(&mut blob, &input, &output, 6);
    assert_eq!(r, Err(TaskError::WriteFailed));
    blob.set_read_only(false);
    assert!(blob.read(&output).is_none());
}
