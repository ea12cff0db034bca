use bbb::{
    after_decode, after_read, target_parent, ExtractError, ExtractionJob, IoErrorKind, JobField,
    NextStep, DECODE_SLACK,
};

fn job(compression_type: u8, compressed_size: usize, file_size: usize) -> ExtractionJob {
    ExtractionJob {
        target_path: "out/a/b/entry.bin".to_string(),
        archive_path: "game.dat".to_string(),
        offset: 128,
        compressed_size,
        file_size,
        compression_type,
    }
}

#[test]
fn stored_entry_is_written_as_read() {
    let range = vec![10u8, 20, 30, 40];
    match after_read(&job(0, 4, 4), Ok(range.clone())) {
        NextStep::Write(bytes) => assert_eq!(bytes, range),
        other => panic!("unexpected step {:?}", other),
    }
}

#[test]
fn read_error_is_passed_on() {
    let err = ExtractError::Io(IoErrorKind::NotFound);
    match after_read(&job(0, 4, 4), Err(err)) {
        NextStep::Fail(e) => assert_eq!(e, err),
        other => panic!("unexpected step {:?}", other),
    }
}

#[test]
fn range_of_wrong_length_is_short_read() {
    match after_read(&job(0, 8, 8), Ok(vec![1, 2, 3])) {
        NextStep::Fail(e) => assert_eq!(e, ExtractError::Io(IoErrorKind::ShortRead)),
        other => panic!("unexpected step {:?}", other),
    }
}

#[test]
fn compressed_entry_goes_to_codec_with_slack() {
    let range = vec![5u8, 6, 7];
    match after_read(&job(8, 3, 100), Ok(range.clone())) {
        NextStep::Decode { input, buffer, expected } => {
            assert_eq!(input, range);
            assert_eq!(buffer.len(), 100 + DECODE_SLACK);
            assert_eq!(expected, 100);
        }
        other => panic!("unexpected step {:?}", other),
    }
}

#[test]
fn oversized_entry_is_refused() {
    match after_read(&job(8, 3, usize::MAX - 10), Ok(vec![5u8, 6, 7])) {
        NextStep::Fail(e) => assert_eq!(e, ExtractError::EntryTooLarge),
        other => panic!("unexpected step {:?}", other),
    }
}

#[test]
fn decoded_entry_is_written_without_slack() {
    let j = job(8, 3, 5);
    let mut buffer = vec![1u8, 2, 3, 4, 5];
    buffer.extend_from_slice(&[0xFF; DECODE_SLACK]);
    match after_decode(&j, buffer, 5) {
        NextStep::Write(bytes) => assert_eq!(bytes, vec![1, 2, 3, 4, 5]),
        other => panic!("unexpected step {:?}", other),
    }
}

#[test]
fn decoded_entry_of_wrong_size_fails() {
    let j = job(8, 3, 5);
    match after_decode(&j, vec![0u8; 5 + DECODE_SLACK], 7) {
        NextStep::Fail(e) => {
            assert_eq!(e, ExtractError::SizeMismatch { expected: 5, actual: 7 })
        }
        other => panic!("unexpected step {:?}", other),
    }
    match after_decode(&j, vec![0u8; 5 + DECODE_SLACK], -1) {
        NextStep::Fail(e) => assert_eq!(e, ExtractError::DecompressFailed(-1)),
        other => panic!("unexpected step {:?}", other),
    }
}

#[test]
fn parent_of_nested_target() {
    assert_eq!(target_parent("out/a/b/entry.bin"), Ok("out/a/b".to_string()));
    assert_eq!(target_parent("/data/x.bin"), Ok("/data".to_string()));
}

#[test]
fn target_without_parent_is_refused() {
    assert_eq!(target_parent(""), Err(ExtractError::NoParent));
    assert_eq!(target_parent("/"), Err(ExtractError::NoParent));
}

#[test]
fn bare_file_name_has_no_parent() {
    assert_eq!(target_parent("a.bin"), Err(ExtractError::NoParent));
    assert_eq!(target_parent("dir/a.bin"), Ok("dir".to_string()));
}

#[test]
fn job_from_complete_descriptor() {
    let j = ExtractionJob::from_fields(
        Some("out/x.bin".to_string()),
        Some("game.dat".to_string()),
        Some(16),
        Some(4),
        Some(9),
        Some(1),
    )
    .unwrap();
    assert_eq!(j.target_path, "out/x.bin");
    assert_eq!(j.archive_path, "game.dat");
    assert_eq!((j.offset, j.compressed_size, j.file_size, j.compression_type), (16, 4, 9, 1));
    assert!(j.is_compressed());
}

#[test]
fn job_descriptor_errors_name_first_bad_field() {
    let t = || Some("t".to_string());
    assert_eq!(
        ExtractionJob::from_fields(None, None, None, None, None, None),
        Err(ExtractError::Parse(JobField::TargetPath))
    );
    assert_eq!(
        ExtractionJob::from_fields(t(), None, Some(0), Some(1), Some(1), Some(0)),
        Err(ExtractError::Parse(JobField::ArchivePath))
    );
    assert_eq!(
        ExtractionJob::from_fields(t(), t(), None, Some(1), Some(1), Some(0)),
        Err(ExtractError::Parse(JobField::Offset))
    );
    assert_eq!(
        ExtractionJob::from_fields(t(), t(), Some(0), None, Some(1), Some(0)),
        Err(ExtractError::Parse(JobField::CompressedSize))
    );
    assert_eq!(
        ExtractionJob::from_fields(t(), t(), Some(0), Some(1), None, Some(0)),
        Err(ExtractError::Parse(JobField::FileSize))
    );
    assert_eq!(
        ExtractionJob::from_fields(t(), t(), Some(0), Some(1), Some(1), Some(256)),
        Err(ExtractError::Parse(JobField::CompressionType))
    );
}
