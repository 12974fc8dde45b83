use vstd::prelude::*;
use vstd::string::StrSliceExecFns;
use vstd::string::StringExecFns;

verus! {

/// Index of the last occurrence of `c` in `s`, or -1 if there is none.
pub open spec fn last_index(s: Seq<char>, c: char) -> int
    decreases s.len(),
{
    if s.len() == 0 {
        -1
    } else if s.last() == c {
        s.len() - 1
    } else {
        last_index(s.drop_last(), c)
    }
}

/// Locator obtained by resolving `file_ref` against the directory `dir`: an
/// absolute `file_ref` stands on its own, anything else is placed under
/// `dir` with exactly one separator between the two.
pub open spec fn join_path(dir: Seq<char>, file_ref: Seq<char>) -> Seq<char> {
    if file_ref.len() > 0 && file_ref[0] == '/' {
        file_ref
    } else if dir.len() == 0 {
        file_ref
    } else if dir.last() == '/' {
        dir + file_ref
    } else {
        dir + "/"@ + file_ref
    }
}

/// End of the stem of `p`: the position of the last `.` when it belongs to
/// the final path component and is not its leading character, else the end
/// of `p`.
pub open spec fn stem_end(p: Seq<char>) -> int {
    let ls = last_index(p, '/');
    let ld = last_index(p, '.');
    if ld > ls + 1 {
        ld
    } else {
        p.len() as int
    }
}

/// `p` with its extension replaced by `gz`: the stem of the final path
/// component followed by `.gz`.
pub open spec fn with_gz(p: Seq<char>) -> Seq<char> {
    p.subrange(0, stem_end(p)) + ".gz"@
}

/// Derives storage locators for uploaded and compressed artifacts.  Only the
/// locator text is computed here; making the directories exist on a real
/// file system is the caller's concern.
pub struct FileHelper;

/// Position of the last occurrence of `c` in `s`, if any.
fn find_last(s: &str, c: char) -> (r: Option<usize>)
    ensures
        r matches Some(i) ==> last_index(s@, c) == i && i < s@.len(),
        r is None ==> last_index(s@, c) == -1,
{
    let n: usize = s.unicode_len();
    let mut i: usize = n;
    proof {
        assert(s@.subrange(0, n as int) =~= s@);
    }
    while i > 0
        invariant
            0 <= i <= n,
            n == s@.len(),
            last_index(s@, c) == last_index(s@.subrange(0, i as int), c),
        decreases i,
    {
        if s.get_char(i - 1) == c {
            proof {
                assert(s@.subrange(0, i as int).last() == s@[i - 1]);
            }
            return Some(i - 1);
        }
        proof {
            assert(s@.subrange(0, i as int).drop_last() =~= s@.subrange(0, i - 1));
        }
        i = i - 1;
    }
    None
}

/// `dir` and `file_ref` joined into one locator, as `join_path` states.
fn join(dir: &str, file_ref: &str) -> (r: String)
    ensures
        r@ == join_path(dir@, file_ref@),
{
    if file_ref.unicode_len() > 0 && file_ref.get_char(0) == '/' {
        return file_ref.to_owned();
    }
    let dir_len = dir.unicode_len();
    if dir_len == 0 {
        return file_ref.to_owned();
    }
    let mut out = dir.to_owned();
    if dir.get_char(dir_len - 1) != '/' {
        out.append("/");
    }
    out.append(file_ref);
    out
}

impl FileHelper {
    /// Locator of the compressed artifact derived from `file_ref`: the
    /// source locator placed under `compressed_dir`, its extension replaced
    /// by `gz`.  The locator text can always be constructed, so this never
    /// returns `None`; a destination that cannot be prepared on a real file
    /// system is reported by the caller instead.
    pub fn get_compressed_file_path(file_ref: &str, compressed_dir: &str) -> (r: Option<String>)
        ensures
            r matches Some(p) ==> p@ == with_gz(join_path(compressed_dir@, file_ref@)),
            r is Some,
    {
        let joined = join(compressed_dir, file_ref);
        let n: usize = joined.as_str().unicode_len();
        let ls = find_last(joined.as_str(), '/');
        let ld = find_last(joined.as_str(), '.');
        let end: usize = match (ld, ls) {
            (Some(d), Some(sl)) => if d > sl + 1 {
                d
            } else {
                n
            },
            (Some(d), None) => if d > 0 {
                d
            } else {
                n
            },
            (None, _) => n,
        };
        let stem = joined.as_str().substring_char(0, end);
        let mut out = stem.to_owned();
        out.append(".gz");
        Some(out)
    }

    /// Locator of the uploaded artifact: `file_ref` resolved against
    /// `uploads_dir`.  The locator text can always be constructed, so this
    /// never returns `None`.
    pub fn get_uploaded_file_path(file_ref: &str, uploads_dir: &str) -> (r: Option<String>)
        ensures
            r matches Some(p) ==> p@ == join_path(uploads_dir@, file_ref@),
            r is Some,
    {
        Some(join(uploads_dir, file_ref))
    }
}

} // verus!
