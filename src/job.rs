use vstd::prelude::*;

verus! {

/// The ways a filesystem operation of one job can fail.
#[derive(Debug, Clone, Copy, PartialEq, Eq, Structural)]
pub enum IoErrorKind {
    NotFound,
    PermissionDenied,
    Other,
    SeekFailed,
    ShortRead,
    CreateDirFailed,
    CreateFileFailed,
    WriteFailed,
}

/// A field of a job descriptor, as named on the wire.
#[derive(Debug, Clone, Copy, PartialEq, Eq, Structural)]
pub enum JobField {
    TargetPath,
    ArchivePath,
    Offset,
    CompressedSize,
    FileSize,
    CompressionType,
}

/// Why one job (or one request) failed.
#[derive(Debug, Clone, Copy, PartialEq, Eq, Structural)]
pub enum ExtractError {
    /// A filesystem operation failed.
    Io(IoErrorKind),
    /// The target path has no parent directory.
    NoParent,
    /// The native codec reported a negative result.
    DecompressFailed(i64),
    /// The native codec produced another length than the declared one.
    SizeMismatch { expected: u64, actual: u64 },
    /// The payload starts like a structured header whose length fields run
    /// past its end.
    MalformedHeader,
    /// The declared size leaves no room for the codec's output slack.
    EntryTooLarge,
    /// A job descriptor field is missing or does not fit its type.
    Parse(JobField),
}

/// One archive entry to extract.
#[derive(Debug, Clone, PartialEq, Eq)]
pub struct ExtractionJob {
    pub target_path: String,
    pub archive_path: String,
    pub offset: usize,
    pub compressed_size: usize,
    pub file_size: usize,
    /// 0 means stored raw, anything else means compressed with the native codec.
    pub compression_type: u8,
}

/// Whether a numeric descriptor field fits in `usize`.
pub open spec fn fits_usize(v: u64) -> bool {
    v <= usize::MAX
}

/// The error that a descriptor with these fields is refused with, if any:
/// the first field, in wire order, that is missing or out of range.
pub open spec fn descriptor_error(
    target_path: Option<Seq<char>>,
    archive_path: Option<Seq<char>>,
    offset: Option<u64>,
    compressed_size: Option<u64>,
    file_size: Option<u64>,
    compression_type: Option<u64>,
) -> Option<JobField> {
    if target_path is None {
        Some(JobField::TargetPath)
    } else if archive_path is None {
        Some(JobField::ArchivePath)
    } else if offset is None || !fits_usize(offset->0) {
        Some(JobField::Offset)
    } else if compressed_size is None || !fits_usize(compressed_size->0) {
        Some(JobField::CompressedSize)
    } else if file_size is None || !fits_usize(file_size->0) {
        Some(JobField::FileSize)
    } else if compression_type is None || compression_type->0 > 255 {
        Some(JobField::CompressionType)
    } else {
        None
    }
}

/// The text of an optional string field.
pub open spec fn opt_view(s: &Option<String>) -> Option<Seq<char>> {
    match s {
        Some(v) => Some(v@),
        None => None,
    }
}

fn field_usize(v: Option<u64>, field: JobField) -> (r: Result<usize, ExtractError>)
    ensures
        match v {
            Some(x) => if fits_usize(x) {
                r == Ok::<usize, ExtractError>(x as usize)
            } else {
                r == Err::<usize, ExtractError>(ExtractError::Parse(field))
            },
            None => r == Err::<usize, ExtractError>(ExtractError::Parse(field)),
        },
{
    match v {
        Some(x) => if x <= usize::MAX as u64 {
            Ok(x as usize)
        } else {
            Err(ExtractError::Parse(field))
        },
        None => Err(ExtractError::Parse(field)),
    }
}

impl ExtractionJob {
    /// Builds a job from the fields of a descriptor, refusing it with
    /// `Parse` naming the first field that is missing or does not fit.
    pub fn from_fields(
        target_path: Option<String>,
        archive_path: Option<String>,
        offset: Option<u64>,
        compressed_size: Option<u64>,
        file_size: Option<u64>,
        compression_type: Option<u64>,
    ) -> (r: Result<ExtractionJob, ExtractError>)
        ensures
            match descriptor_error(
                opt_view(&target_path),
                opt_view(&archive_path),
                offset,
                compressed_size,
                file_size,
                compression_type,
            ) {
                Some(f) => r == Err::<ExtractionJob, ExtractError>(ExtractError::Parse(f)),
                None => r matches Ok(job) && job.target_path@ == target_path->0@
                    && job.archive_path@ == archive_path->0@ && job.offset == offset->0
                    && job.compressed_size == compressed_size->0 && job.file_size
                    == file_size->0 && job.compression_type == compression_type->0,
            },
    {
        let target_path = match target_path {
            Some(s) => s,
            None => return Err(ExtractError::Parse(JobField::TargetPath)),
        };
        let archive_path = match archive_path {
            Some(s) => s,
            None => return Err(ExtractError::Parse(JobField::ArchivePath)),
        };
        let offset = field_usize(offset, JobField::Offset)?;
        let compressed_size = field_usize(compressed_size, JobField::CompressedSize)?;
        let file_size = field_usize(file_size, JobField::FileSize)?;
        let compression_type: u8 = match compression_type {
            Some(t) => if t <= 255 {
                t as u8
            } else {
                return Err(ExtractError::Parse(JobField::CompressionType));
            },
            None => return Err(ExtractError::Parse(JobField::CompressionType)),
        };
        Ok(ExtractionJob {
            target_path,
            archive_path,
            offset,
            compressed_size,
            file_size,
            compression_type,
        })
    }

    /// Whether the entry must go through the native codec.
    pub fn is_compressed(&self) -> (r: bool)
        ensures
            r == (self.compression_type != 0),
    {
        self.compression_type != 0
    }
}

} // verus!
