//! Connection options for remote object storage: URL classification,
//! typing of configuration overrides, the bucket region cache and the
//! decisions taken while a storage client is assembled.
pub mod error;
pub mod text;
pub mod cloud_type;
pub mod keys;
pub mod options;
pub mod region_cache;
pub mod s3;
pub mod clients;
