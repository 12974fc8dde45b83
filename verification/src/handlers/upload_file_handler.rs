use vstd::prelude::*;
use vstd::string::StrSliceExecFns;
use vstd::string::StringExecFns;

use crate::errors::ApiError;
use crate::helpers::env::Env;
use crate::helpers::logger::DefaultLogger;
use crate::models::File;
use crate::services::file_service::file_find;
use crate::services::file_service::FileService;
use crate::text::dec_string;
use crate::text::dec_val;
use crate::text::parse_id;
use crate::text::push_dec;
use crate::handlers::compress_file_handler::valid_id;

verus! {

/// A character the storage layer accepts in a file name: anything but a
/// space, dash, colon or quote.
pub open spec fn keep_char(c: char) -> bool {
    c != ' ' && c != '-' && c != ':' && c != '\''
}

/// `s` with every refused character removed, order kept.
pub open spec fn sanitized(s: Seq<char>) -> Seq<char>
    decreases s.len(),
{
    if s.len() == 0 {
        Seq::<char>::empty()
    } else {
        (if keep_char(s[0]) {
            seq![s[0]]
        } else {
            Seq::<char>::empty()
        }) + sanitized(s.drop_first())
    }
}

/// Serves reads of uploaded-file records.  Receiving the upload itself —
/// multipart decoding and writing the bytes out — is I/O and lives outside
/// the library; what arrives here are the plain record values.
#[derive(Debug)]
pub struct UploadFileHandler {
    pub env: Env,
    pub file_service: FileService,
    pub logger: DefaultLogger,
}

impl UploadFileHandler {
    /// A handler over the given configuration and store, with a fresh
    /// logger.
    pub fn new(env: Env, file_service: FileService) -> (r: UploadFileHandler)
        ensures
            r.env == env,
            r.file_service == file_service,
            r.logger.messages@ == Seq::<String>::empty(),
    {
        UploadFileHandler { env, file_service, logger: DefaultLogger::new("UploadFileHandler") }
    }

    /// The name an upload is stored under: the client-supplied name with
    /// refused characters removed, prefixed by the upload time in seconds
    /// so that repeated uploads of one name do not collide.
    pub fn extract_filename(file_name: &str, epoch_secs: u64) -> (r: String)
        ensures
            r@ == dec_string(epoch_secs as nat) + "_"@ + sanitized(file_name@),
    {
        let mut out = String::new();
        push_dec(&mut out, epoch_secs);
        out.append("_");
        let ghost prefix = out@;
        let n: usize = file_name.unicode_len();
        let mut i: usize = 0;
        proof {
            assert(file_name@.skip(0) =~= file_name@);
            assert(out@ + sanitized(file_name@.skip(0)) =~= prefix + sanitized(file_name@));
        }
        while i < n
            invariant
                0 <= i <= n,
                n == file_name@.len(),
                out@ + sanitized(file_name@.skip(i as int)) =~= prefix + sanitized(file_name@),
            decreases n - i,
        {
            let c = file_name.get_char(i);
            proof {
                assert(file_name@.skip(i as int)[0] == file_name@[i as int]);
                assert(file_name@.skip(i as int).drop_first() =~= file_name@.skip(i + 1));
            }
            let ghost pre = out@;
            if !(c == ' ' || c == '-' || c == ':' || c == '\'') {
                let piece = file_name.substring_char(i, i + 1);
                out.append(piece);
                proof {
                    assert(piece@ =~= seq![file_name@[i as int]]);
                }
            }
            proof {
                assert(out@ + sanitized(file_name@.skip(i + 1)) =~= pre + sanitized(
                    file_name@.skip(i as int),
                ));
            }
            i = i + 1;
        }
        proof {
            assert(file_name@.skip(n as int) =~= Seq::<char>::empty());
            assert(out@ =~= prefix + sanitized(file_name@));
        }
        out
    }

    /// The record of the uploaded file named by `id`.  A malformed
    /// identifier is rejected as a validation error, an unknown one as
    /// `NotFound`.
    pub fn get_file(&self, id: &str) -> (r: Result<File, ApiError>)
        ensures
            ({
                if !valid_id(id@) {
                    r matches Err(e) && e == ApiError::Validation
                } else {
                    let pid = dec_val(id@) as u64;
                    match file_find(self.file_service.files@, pid) {
                        Some(f) => r matches Ok(found) && found == f,
                        None => r matches Err(e) && e == ApiError::NotFound,
                    }
                }
            }),
    {
        let pid: u64 = match parse_id(id) {
            Some(v) => v,
            None => {
                return Err(ApiError::Validation);
            },
        };
        self.file_service.find_one(pid)
    }
}

} // verus!
