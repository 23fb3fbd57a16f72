//! Discovery of image/caption pairs and extraction of their metadata.
//!
//! The library holds the decisions of the pipeline: which directory entries
//! are candidates, how a caption is cleaned, how the results of one
//! extraction become a cache record, how many extractions may run at once
//! and when a run stops, and what mapping the collected records describe.
//! Reading the disk, decoding image headers and writing the cache file are
//! left to the caller, which hands plain values in and takes plain values out.
pub mod cache;
pub mod caption;
pub mod filter;
pub mod record;
pub mod scheduler;

pub use caption::caption_from_text;
pub use filter::{accepts, filter_candidates, is_supported_extension, FileEntry};
pub use record::{
    build_record, CacheEntry, ExtractionCause, ExtractionError, ImageFailure, SubsetInfo,
};
pub use scheduler::Scheduler;
