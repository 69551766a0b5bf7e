//! A gateway to S3-compatible object stores: endpoint resolution, recovery
//! from redirect errors, and shaping of requests and results.
//!
//! The library decides and computes; the caller talks to the storage
//! backend. A call goes through `client::build_bucket` (or, for listing
//! buckets, `client::resolve_service_endpoint`), runs its request under
//! `Operation::timeout_secs`, and hands the outcome of each attempt to
//! `executor::next_action`, which returns, fails, or asks for the one retry.

pub mod client;
pub mod config;
pub mod endpoint;
pub mod envelope;
pub mod error;
pub mod executor;
pub mod listing;
pub mod operation;
pub mod params;
pub mod redirect;
pub mod region;
pub mod roundtrip;
pub mod settings;
pub mod text;
pub mod timestamp;

pub use client::{build_bucket, resolve_service_endpoint, BucketPlan};
pub use config::OssConfig;
pub use endpoint::{resolve_region_and_endpoint, ResolvedEndpoint};
pub use envelope::OssResult;
pub use error::OssError;
pub use executor::{next_action, Action, Attempt, Outcome};
pub use listing::{shape_buckets, shape_listing, OssBucketSummary, OssFileItem};
pub use operation::Operation;
pub use params::{
    OssCreateFolderParams, OssDeleteParams, OssDownloadParams, OssListParams, OssUploadParams,
};
pub use redirect::{ensure_scheme, extract_endpoint_from_error_xml};
pub use region::infer_region_from_endpoint;
