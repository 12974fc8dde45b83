pub mod compress_file_handler;
pub mod upload_file_handler;
