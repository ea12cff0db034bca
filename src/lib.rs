//! Parallel extraction of entries out of large game-archive containers.
//!
//! The library holds the decisions of the extraction engine: validating job
//! descriptors, sizing and checking the native codec's output, stripping the
//! structured header some archive families carry, the per-worker progress
//! buffering and the shared progress tally, and the framing of responses.
//! Reading archives, running the native codec, writing files and spawning
//! workers are done by the caller, which hands the results back in.

mod codec;
mod job;
mod pipeline;
mod progress;
mod protocol;
mod scan;

pub use codec::{
    be32_at, decode_buffer, decoded_content, finish_decode, has_header_marker, header_skipped,
    inflate, lemma_decoded_length_exact, lemma_header_skip_idempotent, skip_header, zlib_inflated,
    DECODE_SLACK,
};
pub use job::{
    descriptor_error, fits_usize, opt_view, ExtractError, ExtractionJob, IoErrorKind, JobField,
};
pub use pipeline::{after_decode, after_read, path_parent, target_parent, NextStep};
pub use progress::{
    batch_contribution, batch_counts, batch_jobs, counts_bump, counts_plus,
    lemma_batch_tally_complete, lemma_tally_independent_of_split, lemma_worker_accounts,
    outcome_counts, record_model, replay, worker_contribution, BatchSummary, ErrorLogInv,
    ExtractionProgress, LocalExtractionProgress, ProgressSnapshot, FLUSH_THRESHOLD,
};
pub use protocol::{
    cors_header_table, cors_headers, endpoint_of, media_type_name, ContentType, Endpoint,
    ResponseParts,
};
pub use scan::{is_manifest_name, is_manifest_path, manifest_suffix, may_scan, MAX_SCAN_DEPTH};
