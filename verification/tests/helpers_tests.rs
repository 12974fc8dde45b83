use compression_jobs::app::App;
use compression_jobs::dtos::CreateFile;
use compression_jobs::errors::ApiError;
use compression_jobs::handlers::upload_file_handler::UploadFileHandler;
use compression_jobs::helpers::env::Env;
use compression_jobs::helpers::file::FileHelper;
use compression_jobs::helpers::logger::DefaultLogger;
use compression_jobs::helpers::logger::Logger;
use compression_jobs::models::FileStatus;
use compression_jobs::services::file_service::FileService;
use compression_jobs::text::parse_id;

#[test]
fn uploaded_path_joins_relative_refs() {
    assert_eq!(
        FileHelper::get_uploaded_file_path("a.bin", "uploads"),
        Some("uploads/a.bin".to_string())
    );
    assert_eq!(
        FileHelper::get_uploaded_file_path("a.bin", "uploads/"),
        Some("uploads/a.bin".to_string())
    );
    assert_eq!(FileHelper::get_uploaded_file_path("a.bin", ""), Some("a.bin".to_string()));
}

#[test]
fn uploaded_path_keeps_absolute_refs() {
    assert_eq!(
        FileHelper::get_uploaded_file_path("/uploads/a.bin", "elsewhere"),
        Some("/uploads/a.bin".to_string())
    );
}

#[test]
fn compressed_path_replaces_extension() {
    assert_eq!(
        FileHelper::get_compressed_file_path("sample.txt", "out"),
        Some("out/sample.gz".to_string())
    );
    assert_eq!(
        FileHelper::get_compressed_file_path("archive.tar.bz", "out"),
        Some("out/archive.tar.gz".to_string())
    );
    assert_eq!(
        FileHelper::get_compressed_file_path("noext", "out"),
        Some("out/noext.gz".to_string())
    );
    // A leading dot starts a hidden name, not an extension.
    assert_eq!(
        FileHelper::get_compressed_file_path(".config", "out"),
        Some("out/.config.gz".to_string())
    );
    // A dot in a directory name is not an extension either.
    assert_eq!(
        FileHelper::get_compressed_file_path("plain", "out.d"),
        Some("out.d/plain.gz".to_string())
    );
}

#[test]
fn parse_id_accepts_decimal_u64() {
    assert_eq!(parse_id("0"), Some(0));
    assert_eq!(parse_id("42"), Some(42));
    assert_eq!(parse_id("18446744073709551615"), Some(u64::MAX));
}

#[test]
fn parse_id_rejects_malformed_text() {
    assert_eq!(parse_id(""), None);
    assert_eq!(parse_id("abc"), None);
    assert_eq!(parse_id("12x"), None);
    assert_eq!(parse_id("-1"), None);
    assert_eq!(parse_id("18446744073709551616"), None);
}

#[test]
fn extract_filename_strips_separators_and_prefixes_time() {
    assert_eq!(
        UploadFileHandler::extract_filename("my file-x:'a.txt", 1700000000),
        "1700000000_myfilexa.txt"
    );
    assert_eq!(UploadFileHandler::extract_filename("clean.bin", 0), "0_clean.bin");
    assert_eq!(UploadFileHandler::extract_filename("", 42), "42_");
}

#[test]
fn status_names_are_lower_case() {
    assert_eq!(FileStatus::Compressing.as_str(), "compressing");
    assert_eq!(FileStatus::Passed.as_str(), "passed");
    assert_eq!(FileStatus::Failed.as_str(), "failed");
}

#[test]
fn error_status_codes() {
    assert_eq!(ApiError::Validation.status_code(), 400);
    assert_eq!(ApiError::NotFound.status_code(), 404);
    assert_eq!(ApiError::Internal.status_code(), 500);
}

#[test]
fn logger_records_messages_in_order() {
    let mut logger = DefaultLogger::new("Harness");
    logger.log("first");
    logger.warn("second");
    logger.error("third");
    logger.debug("fourth");
    assert_eq!(logger.module_name, "Harness");
    assert_eq!(logger.messages, vec!["first", "second", "third", "fourth"]);
}

#[test]
fn upload_handler_serves_file_records() {
    let env = Env::new(
        String::new(),
        String::new(),
        String::new(),
        "uploads".to_string(),
        "compressed".to_string(),
    );
    let mut files = FileService::new();
    let created = files
        .create(CreateFile { file_ref: "a.bin".to_string(), size: 7 })
        .expect("record created");
    let h = UploadFileHandler::new(env, files);

    let found = h.get_file(&created.id.to_string()).expect("record found");
    assert_eq!(found.id, created.id);
    assert_eq!(found.file_ref, "a.bin");
    assert_eq!(found.size, 7);

    assert_eq!(h.get_file("9999").err(), Some(ApiError::NotFound));
    assert_eq!(h.get_file("?").err(), Some(ApiError::Validation));
}

#[test]
fn app_holds_configuration() {
    let env = Env::new(
        "postgres://localhost/db".to_string(),
        "0.0.0.0".to_string(),
        "8080".to_string(),
        "uploads".to_string(),
        "compressed".to_string(),
    );
    let app = App::new(env);
    assert_eq!(app.state.env.host, "0.0.0.0");
    assert_eq!(app.state.env.port, "8080");
    assert_eq!(app.state.env.uploads_dir, "uploads");
    assert_eq!(app.state.env.compressed_dir, "compressed");
}
