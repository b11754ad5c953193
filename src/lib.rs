//! A resource-safe reader layer over a native multi-format archive engine.
//!
//! The native engine owns the bit-level work of every filter and container
//! format. This library owns the decisions around it: how a path is handed
//! over, how native status codes become typed errors, the lifecycle of a
//! reader handle, the order in which detectors are registered, and which
//! entry a read may still touch.
mod error;
mod archive;
mod detect;
mod laws;
mod path;

pub use error::{
    classify, status_kind, translate, translate_open_failure, translated, translated_open_failure,
    Error, Progress, Status, ARCHIVE_EOF, ARCHIVE_FAILED, ARCHIVE_FATAL, ARCHIVE_OK, ARCHIVE_RETRY,
    ARCHIVE_WARN, ERRNO_FILE_FORMAT, ERRNO_NOT_FOUND,
};
pub use archive::{
    close_step, configuring, created, data_failure, entry_kind, entry_of, header_outcome,
    header_state, kind_of, next_step, open_succeeds, opened, read_step, size_hint, size_hint_of,
    Archive, ArchiveModel, Entry, EntryHeader, EntryKind, EntryModel, Lifecycle, NextStep, Opening,
    ReadStep, TYPE_DIRECTORY, TYPE_FILE, TYPE_MASK, TYPE_SYMLINK,
};
pub use detect::{
    detection_plan, detection_plan_of, filter_plan, format_plan, DetectionConfig, Detector,
    Registration,
};
pub use laws::{
    enumerated, lemma_close_idempotent, lemma_closed_refuses, lemma_enumeration_in_order,
    lemma_missing_file, lemma_stale_after_next,
};
pub use path::{cstring_of, has_nul, path_to_cstring, unicode_path_to_cstring};
