use vstd::prelude::*;
use object_store::aws::AmazonS3ConfigKey;
use object_store::azure::AzureConfigKey;
use object_store::gcp::GoogleConfigKey;
use crate::cloud_type::{CloudType, classify};
use crate::error::CloudError;
use crate::keys::ConfigKey;

verus! {

/// Retries made when the caller sets no other number.
pub const DEFAULT_MAX_RETRIES: usize = 2;

/// Seconds that a downloaded file stays cached when the environment sets no other time.
pub const DEFAULT_FILE_CACHE_TTL: u64 = 3600;

/// Seconds after which a request stops being retried.
pub const RETRY_TIMEOUT_SECS: u64 = 10;

/// Every key of `config` names a key of the provider `T`.
pub open spec fn all_known<T: ConfigKey>(config: Seq<(String, String)>) -> bool {
    forall|i: int| 0 <= i < config.len() ==> T::parsed(#[trigger] config[i].0@) is Some
}

/// `i` is the position of the first key of `config` that `T` does not know.
pub open spec fn first_unknown<T: ConfigKey>(config: Seq<(String, String)>, i: int) -> bool {
    &&& 0 <= i < config.len()
    &&& T::parsed(config[i].0@) is None
    &&& forall|j: int| 0 <= j < i ==> T::parsed(#[trigger] config[j].0@) is Some
}

/// `typed` holds the pairs of `config` in their order: each key is the one that its text
/// names, each value is kept.
pub open spec fn typed_from<T: ConfigKey>(typed: Seq<(T, String)>, config: Seq<(String, String)>) -> bool {
    &&& typed.len() == config.len()
    &&& forall|i: int| 0 <= i < typed.len() ==> T::parsed(config[i].0@) == Some((#[trigger] typed[i]).0)
    &&& forall|i: int| 0 <= i < typed.len() ==> (#[trigger] typed[i]).1@ == config[i].1@
}

/// Types the keys of an untyped configuration for the provider `T`. The first key that
/// the provider does not know stops the work and is named in the error.
pub fn parsed_untyped_config<T: ConfigKey>(config: &Vec<(String, String)>) -> (r: Result<
    Vec<(T, String)>,
    CloudError,
>)
    ensures
        r is Ok <==> all_known::<T>(config@),
        r matches Ok(v) ==> typed_from(v@, config@),
        r matches Err(e) ==> exists|i: int|
            first_unknown::<T>(config@, i) && (e matches CloudError::UnknownConfigKey(k)
                && k@ == config@[i].0@),
{
    let mut out: Vec<(T, String)> = Vec::new();
    let mut i: usize = 0;
    while i < config.len()
        invariant
            i <= config@.len(),
            out@.len() == i,
            forall|j: int| 0 <= j < i ==> T::parsed(#[trigger] config@[j].0@) is Some,
            forall|j: int| 0 <= j < i ==> (#[trigger] out@[j]).1@ == config@[j].1@,
            forall|j: int| 0 <= j < i ==> T::parsed(config@[j].0@) == Some((#[trigger] out@[j]).0),
        decreases config@.len() - i,
    {
        let key = &config[i].0;
        let value = &config[i].1;
        match T::parse_key(key.as_str()) {
            Some(k) => {
                out.push((k, value.clone()));
            },
            None => {
                assert(first_unknown::<T>(config@, i as int));
                return Err(CloudError::UnknownConfigKey(key.clone()));
            },
        }
        i = i + 1;
    }
    Ok(out)
}

/// Typing fails on the single key that the provider does not know, wherever it stands:
/// it is the first unknown key, and no other position is.
pub proof fn lemma_single_unknown_key<T: ConfigKey>(config: Seq<(String, String)>, i: int)
    requires
        0 <= i < config.len(),
        T::parsed(config[i].0@) is None,
        forall|j: int| 0 <= j < config.len() && j != i ==> T::parsed(#[trigger] config[j].0@) is Some,
    ensures
        first_unknown::<T>(config, i),
        forall|k: int| #[trigger] first_unknown::<T>(config, k) ==> k == i,
        !all_known::<T>(config),
{
}

/// The retry policy handed to a provider client: how often a failed request is retried
/// and for how long, with the provider's default exponential backoff.
#[derive(Debug, Clone, Copy, PartialEq, Eq, Structural)]
pub struct RetryPolicy {
    pub max_retries: usize,
    pub retry_timeout_secs: u64,
}

/// The retry policy for a number of retries.
pub fn get_retry_config(max_retries: usize) -> (r: RetryPolicy)
    ensures
        r.max_retries == max_retries,
        r.retry_timeout_secs == RETRY_TIMEOUT_SECS,
{
    RetryPolicy { max_retries, retry_timeout_secs: RETRY_TIMEOUT_SECS }
}

/// Options to connect to the storage providers.
#[derive(Debug, Clone, PartialEq, Eq, Hash)]
pub struct CloudOptions {
    pub max_retries: usize,
    pub file_cache_ttl: u64,
    pub aws: Option<Vec<(AmazonS3ConfigKey, String)>>,
    pub azure: Option<Vec<(AzureConfigKey, String)>>,
    pub gcp: Option<Vec<(GoogleConfigKey, String)>>,
}

/// Options as `CloudOptions::default` makes them.
pub open spec fn is_default(o: CloudOptions) -> bool {
    &&& o.max_retries == DEFAULT_MAX_RETRIES
    &&& o.file_cache_ttl == DEFAULT_FILE_CACHE_TTL
    &&& o.aws is None
    &&& o.azure is None
    &&& o.gcp is None
}

impl Default for CloudOptions {
    fn default() -> (r: Self)
        ensures
            is_default(r),
    {
        CloudOptions {
            max_retries: DEFAULT_MAX_RETRIES,
            file_cache_ttl: DEFAULT_FILE_CACHE_TTL,
            aws: None,
            azure: None,
            gcp: None,
        }
    }
}

impl CloudOptions {
    /// Sets the maximum number of retries.
    pub fn with_max_retries(self, max_retries: usize) -> (r: Self)
        ensures
            r == (CloudOptions { max_retries, ..self }),
    {
        CloudOptions { max_retries, ..self }
    }

    /// Sets the time for which downloaded files stay cached.
    pub fn with_file_cache_ttl(self, file_cache_ttl: u64) -> (r: Self)
        ensures
            r == (CloudOptions { file_cache_ttl, ..self }),
    {
        CloudOptions { file_cache_ttl, ..self }
    }

    /// Sets the configuration for S3 connections.
    pub fn with_aws(self, configs: Vec<(AmazonS3ConfigKey, String)>) -> (r: Self)
        ensures
            r == (CloudOptions { aws: Some(configs), ..self }),
    {
        CloudOptions { aws: Some(configs), ..self }
    }

    /// Sets the configuration for Azure connections.
    pub fn with_azure(self, configs: Vec<(AzureConfigKey, String)>) -> (r: Self)
        ensures
            r == (CloudOptions { azure: Some(configs), ..self }),
    {
        CloudOptions { azure: Some(configs), ..self }
    }

    /// Sets the configuration for Google Cloud Storage connections.
    pub fn with_gcp(self, configs: Vec<(GoogleConfigKey, String)>) -> (r: Self)
        ensures
            r == (CloudOptions { gcp: Some(configs), ..self }),
    {
        CloudOptions { gcp: Some(configs), ..self }
    }

    /// The retry policy that these options ask of a client.
    pub fn retry_policy(&self) -> (r: RetryPolicy)
        ensures
            r.max_retries == self.max_retries,
            r.retry_timeout_secs == RETRY_TIMEOUT_SECS,
    {
        get_retry_config(self.max_retries)
    }

    /// Options for a path or URL text (`cwd` is the working directory) and untyped
    /// overrides: the overrides are typed for the provider that the URL selects and
    /// kept in their order; local files and plain HTTP take none.
    pub fn from_untyped_config(url: &str, cwd: &str, config: &Vec<(String, String)>) -> (r:
        Result<Self, CloudError>)
        ensures
            classify(url@, cwd@) is None <==> (r matches Err(e) && e is InvalidInput),
            classify(url@, cwd@) == Some(CloudType::Aws) ==> {
                &&& r is Ok <==> all_known::<AmazonS3ConfigKey>(config@)
                &&& r matches Ok(o) ==> (o.aws matches Some(v) && typed_from(v@, config@)
                    && is_default(CloudOptions { aws: None, ..o }))
                &&& r matches Err(e) ==> exists|i: int|
                    first_unknown::<AmazonS3ConfigKey>(config@, i) && (e matches CloudError::UnknownConfigKey(k)
                        && k@ == config@[i].0@)
            },
            classify(url@, cwd@) == Some(CloudType::Azure) ==> {
                &&& r is Ok <==> all_known::<AzureConfigKey>(config@)
                &&& r matches Ok(o) ==> (o.azure matches Some(v) && typed_from(v@, config@)
                    && is_default(CloudOptions { azure: None, ..o }))
                &&& r matches Err(e) ==> exists|i: int|
                    first_unknown::<AzureConfigKey>(config@, i) && (e matches CloudError::UnknownConfigKey(k)
                        && k@ == config@[i].0@)
            },
            classify(url@, cwd@) == Some(CloudType::Gcp) ==> {
                &&& r is Ok <==> all_known::<GoogleConfigKey>(config@)
                &&& r matches Ok(o) ==> (o.gcp matches Some(v) && typed_from(v@, config@)
                    && is_default(CloudOptions { gcp: None, ..o }))
                &&& r matches Err(e) ==> exists|i: int|
                    first_unknown::<GoogleConfigKey>(config@, i) && (e matches CloudError::UnknownConfigKey(k)
                        && k@ == config@[i].0@)
            },
            classify(url@, cwd@) == Some(CloudType::File) || classify(url@, cwd@) == Some(
                CloudType::Http,
            ) ==> (r matches Ok(o) && is_default(o)),
    {
        match CloudType::from_str(url, cwd)? {
            CloudType::Aws => {
                let aws = parsed_untyped_config::<AmazonS3ConfigKey>(config)?;
                Ok(CloudOptions::default().with_aws(aws))
            },
            CloudType::Azure => {
                let azure = parsed_untyped_config::<AzureConfigKey>(config)?;
                Ok(CloudOptions::default().with_azure(azure))
            },
            CloudType::Gcp => {
                let gcp = parsed_untyped_config::<GoogleConfigKey>(config)?;
                Ok(CloudOptions::default().with_gcp(gcp))
            },
            CloudType::File => Ok(CloudOptions::default()),
            CloudType::Http => Ok(CloudOptions::default()),
        }
    }
}

} // verus!
