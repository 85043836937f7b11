//! Media metadata and thumbnail pipeline.
//!
//! The library covers the decision logic of a media manager's
//! extraction-and-caching pipeline: classifying files by extension,
//! assembling structured metadata records from probed stream values,
//! deriving thumbnail cache keys, deciding cache hits and staleness,
//! bounding the packet budget of video frame searches, and collecting
//! batch results under a fixed concurrency cap.

pub mod text;
pub mod scanner;
pub mod media_info;
pub mod media_cache;
pub mod thumbnail;
pub mod orchestrator;
pub mod mime;
