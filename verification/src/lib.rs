//! Streaming technical-analysis indicators over irregularly sampled time
//! series.
//!
//! Every indicator consumes `(timestamp, value)` samples and returns an
//! updated reading per sample.  A caller-declared characteristic duration
//! selects a temporal de-duplication strategy (second buckets, minute
//! buckets, or daily gap enforcement) and bounds the sliding window that the
//! window-based indicators aggregate over.  The scalar value type is left
//! abstract behind the [`scalar::Scalar`] trait, so the temporal structure of
//! each indicator — which samples are retained, replaced and evicted, and how
//! the smoother clock advances — is specified and verified exactly, while the
//! caller chooses the numeric representation.

pub mod errors;
pub mod indicators;
pub mod scalar;
pub mod text;
pub mod window;
