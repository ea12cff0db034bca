use vstd::prelude::*;
use crate::codec::{decode_buffer, decoded_content, finish_decode, DECODE_SLACK};
use crate::job::{ExtractError, ExtractionJob, IoErrorKind};

verus! {

/// What the caller does next for one job.
#[derive(Debug)]
pub enum NextStep {
    /// Run the native codec on `input` into `buffer`, declaring `expected`
    /// output bytes, and hand the buffer and the codec's result back.
    Decode { input: Vec<u8>, buffer: Vec<u8>, expected: usize },
    /// Write these bytes to the job's target path.
    Write(Vec<u8>),
    /// The job has failed.
    Fail(ExtractError),
}

/// Decides what follows reading the job's byte range `[offset,
/// offset + compressed_size)` from its archive. A read error ends the job
/// unchanged; a range of the wrong length is a short read; a stored entry is
/// written exactly as read; a compressed one goes to the codec with an output
/// buffer of the declared size plus the slack.
pub fn after_read(job: &ExtractionJob, range: Result<Vec<u8>, ExtractError>) -> (r: NextStep)
    ensures
        match range {
            Err(e) => r == NextStep::Fail(e),
            Ok(b) => if b@.len() != job.compressed_size {
                r == NextStep::Fail(ExtractError::Io(IoErrorKind::ShortRead))
            } else if job.compression_type == 0 {
                r matches NextStep::Write(c) && c@ == b@
            } else if job.file_size + DECODE_SLACK > usize::MAX {
                r == NextStep::Fail(ExtractError::EntryTooLarge)
            } else {
                r matches NextStep::Decode { input, buffer, expected } && input@ == b@
                    && buffer@ == Seq::new(
                    (job.file_size + DECODE_SLACK) as nat,
                    |i: int| 0u8,
                ) && expected == job.file_size
            },
        },
{
    let bytes = match range {
        Ok(b) => b,
        Err(e) => return NextStep::Fail(e),
    };
    if bytes.len() != job.compressed_size {
        return NextStep::Fail(ExtractError::Io(IoErrorKind::ShortRead));
    }
    if !job.is_compressed() {
        return NextStep::Write(bytes);
    }
    match decode_buffer(job.file_size) {
        Some(buffer) => NextStep::Decode { input: bytes, buffer, expected: job.file_size },
        None => NextStep::Fail(ExtractError::EntryTooLarge),
    }
}

/// Decides what follows the native codec's run on a compressed entry:
/// `buffer` is the output buffer that `after_read` handed out, `code` the
/// codec's signed result.
pub fn after_decode(job: &ExtractionJob, buffer: Vec<u8>, code: i64) -> (r: NextStep)
    requires
        buffer@.len() == job.file_size + DECODE_SLACK,
    ensures
        match decoded_content(buffer@, code as int, job.file_size as nat) {
            Ok(t) => r matches NextStep::Write(c) && c@ == t,
            Err(e) => r == NextStep::Fail(e),
        },
{
    match finish_decode(buffer, code, job.file_size) {
        Ok(content) => NextStep::Write(content),
        Err(e) => NextStep::Fail(e),
    }
}

/// The parent directory of a path, as `std::path::Path::parent` gives it.
pub uninterp spec fn path_parent(path: Seq<char>) -> Option<Seq<char>>;

/// Relies on `std::path::Path::parent`: the parent of a path is a function of
/// the path alone, and the empty path has none.
#[verifier::external_body]
fn parent_of(path: &str) -> (r: Option<String>)
    ensures
        match path_parent(path@) {
            Some(p) => r matches Some(s) && s@ == p,
            None => r is None,
        },
        path@.len() == 0 ==> r is None,
{
    std::path::Path::new(path).parent().map(|p| p.to_string_lossy().into_owned())
}

/// The directory that must exist before `target_path` is written: its
/// parent, or `NoParent` where it has none or only an empty one (a bare
/// file name).
pub fn target_parent(target_path: &str) -> (r: Result<String, ExtractError>)
    ensures
        match path_parent(target_path@) {
            Some(p) => if p.len() == 0 {
                r == Err::<String, ExtractError>(ExtractError::NoParent)
            } else {
                r matches Ok(s) && s@ == p
            },
            None => r == Err::<String, ExtractError>(ExtractError::NoParent),
        },
        target_path@.len() == 0 ==> r == Err::<String, ExtractError>(ExtractError::NoParent),
{
    match parent_of(target_path) {
        Some(p) => if p.as_str().is_empty() {
            Err(ExtractError::NoParent)
        } else {
            Ok(p)
        },
        None => Err(ExtractError::NoParent),
    }
}

} // verus!
