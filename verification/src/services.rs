pub mod compressed_file_service;
pub mod file_service;
