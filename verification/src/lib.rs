//! Verified core of a small desktop conversion toolbox: selection and
//! bookkeeping for batch image conversion and cleanup, the decision logic of a
//! long-poll client for a remote inference API, settings in their JSON form,
//! and validation of encoder invocations.

pub mod errors;
pub mod names;
pub mod listing;
pub mod batch;
pub mod cleanup;
pub mod convert;
pub mod json;
pub mod job;
pub mod settings;
pub mod transcode;
