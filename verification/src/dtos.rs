use vstd::prelude::*;

verus! {

/// Compression level requested by the client, before normalization.
#[derive(Clone, Copy, Debug)]
pub struct CompressionLevel {
    pub level: u32,
}

/// Request to create a compression job record.
#[derive(Debug)]
pub struct CreateCompressedFile {
    pub file_ref: String,
    pub level: u32,
    pub alg: String,
}

/// Request to create an uploaded-file record.
#[derive(Debug)]
pub struct CreateFile {
    pub file_ref: String,
    pub size: u64,
}

} // verus!
