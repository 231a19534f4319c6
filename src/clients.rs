use vstd::prelude::*;
use object_store::{BackoffConfig, ClientOptions, RetryConfig};
use object_store::aws::{AmazonS3, AmazonS3Builder, AmazonS3ConfigKey};
use object_store::azure::{MicrosoftAzure, MicrosoftAzureBuilder, AzureConfigKey};
use object_store::gcp::{GoogleCloudStorage, GoogleCloudStorageBuilder, GoogleConfigKey};
use crate::error::CloudError;
use crate::options::{CloudOptions, RetryPolicy, RETRY_TIMEOUT_SECS};
use crate::s3::{CredentialFile, CredentialRule, S3Setting};

verus! {

#[verifier::external_type_specification]
#[verifier::external_body]
pub struct ExClientOptions(ClientOptions);

#[verifier::external_type_specification]
#[verifier::external_body]
pub struct ExRetryConfig(RetryConfig);

#[verifier::external_type_specification]
#[verifier::external_body]
pub struct ExObjectStoreError(object_store::Error);

#[verifier::external_type_specification]
#[verifier::external_body]
pub struct ExAmazonS3Builder(AmazonS3Builder);

#[verifier::external_type_specification]
#[verifier::external_body]
pub struct ExAmazonS3(AmazonS3);

#[verifier::external_type_specification]
#[verifier::external_body]
pub struct ExMicrosoftAzureBuilder(MicrosoftAzureBuilder);

#[verifier::external_type_specification]
#[verifier::external_body]
pub struct ExMicrosoftAzure(MicrosoftAzure);

#[verifier::external_type_specification]
#[verifier::external_body]
pub struct ExGoogleCloudStorageBuilder(GoogleCloudStorageBuilder);

#[verifier::external_type_specification]
#[verifier::external_body]
pub struct ExGoogleCloudStorage(GoogleCloudStorage);

/// Two settings of client options: whether a request has a timeout, and whether plain
/// HTTP is allowed.
pub uninterp spec fn client_flags(o: ClientOptions) -> (bool, bool);

/// Relies on `ClientOptions::new`: the provider's default client options.
pub assume_specification[ ClientOptions::new ]() -> ClientOptions;

/// Relies on `ClientOptions::with_timeout_disabled`: it clears the request timeout only.
pub assume_specification[ ClientOptions::with_timeout_disabled ](o: ClientOptions) -> (r: ClientOptions)
    ensures
        client_flags(r) == (false, client_flags(o).1),
;

/// Relies on `ClientOptions::with_connect_timeout_disabled`: in this version it clears
/// the request timeout (the field `timeout`), and nothing else.
pub assume_specification[ ClientOptions::with_connect_timeout_disabled ](o: ClientOptions) -> (r: ClientOptions)
    ensures
        client_flags(r) == (false, client_flags(o).1),
;

/// Relies on `ClientOptions::with_allow_http`: it sets whether plain HTTP may be used only.
pub assume_specification[ ClientOptions::with_allow_http ](o: ClientOptions, allow_http: bool) -> (r: ClientOptions)
    ensures
        client_flags(r) == (client_flags(o).0, allow_http),
;

/// Relies on `AmazonS3Builder::with_client_options`.
pub assume_specification[ AmazonS3Builder::with_client_options ](b: AmazonS3Builder, options: ClientOptions) -> AmazonS3Builder;

/// Relies on `AmazonS3Builder::with_retry`.
pub assume_specification[ AmazonS3Builder::with_retry ](b: AmazonS3Builder, retry_config: RetryConfig) -> AmazonS3Builder;

/// Relies on `AmazonS3Builder::build`: the client, or the error that the settings cause.
pub assume_specification[ AmazonS3Builder::build ](b: AmazonS3Builder) -> Result<AmazonS3, object_store::Error>;

/// Relies on `MicrosoftAzureBuilder::with_client_options`.
pub assume_specification[ MicrosoftAzureBuilder::with_client_options ](b: MicrosoftAzureBuilder, options: ClientOptions) -> MicrosoftAzureBuilder;

/// Relies on `MicrosoftAzureBuilder::with_retry`.
pub assume_specification[ MicrosoftAzureBuilder::with_retry ](b: MicrosoftAzureBuilder, retry_config: RetryConfig) -> MicrosoftAzureBuilder;

/// Relies on `MicrosoftAzureBuilder::build`: the client, or the error that the settings cause.
pub assume_specification[ MicrosoftAzureBuilder::build ](b: MicrosoftAzureBuilder) -> Result<MicrosoftAzure, object_store::Error>;

/// Relies on `GoogleCloudStorageBuilder::with_client_options`.
pub assume_specification[ GoogleCloudStorageBuilder::with_client_options ](b: GoogleCloudStorageBuilder, options: ClientOptions) -> GoogleCloudStorageBuilder;

/// Relies on `GoogleCloudStorageBuilder::with_retry`.
pub assume_specification[ GoogleCloudStorageBuilder::with_retry ](b: GoogleCloudStorageBuilder, retry_config: RetryConfig) -> GoogleCloudStorageBuilder;

/// Relies on `GoogleCloudStorageBuilder::build`: the client, or the error that the settings cause.
pub assume_specification[ GoogleCloudStorageBuilder::build ](b: GoogleCloudStorageBuilder) -> Result<GoogleCloudStorage, object_store::Error>;

/// What `AmazonS3Builder::get_config_value` gives for the key of a setting.
pub uninterp spec fn s3_value(b: AmazonS3Builder, s: S3Setting) -> Option<Seq<char>>;

/// The URL that `AmazonS3Builder::with_url` set last.
pub uninterp spec fn s3_url(b: AmazonS3Builder) -> Option<Seq<char>>;

/// The `AmazonS3ConfigKey` of a setting.
pub uninterp spec fn s3_setting_key(s: S3Setting) -> AmazonS3ConfigKey;

/// A setting's value once `with_config(k, v)` was applied to a builder where it was
/// `prev`: the key of the setting takes `v`; the default region key fills the region
/// only where none is set (both read the same field); any other key leaves it.
pub open spec fn setting_step(prev: Option<Seq<char>>, s: S3Setting, k: AmazonS3ConfigKey, v: Seq<char>) -> Option<Seq<char>> {
    if s is Region || s is DefaultRegion {
        if k == s3_setting_key(S3Setting::Region) {
            Some(v)
        } else if k == s3_setting_key(S3Setting::DefaultRegion) {
            if prev is Some {
                prev
            } else {
                Some(v)
            }
        } else {
            prev
        }
    } else if k == s3_setting_key(s) {
        Some(v)
    } else {
        prev
    }
}

/// A setting's value once the pairs of `configs` were applied in order to a builder where
/// it was `v0`.
pub open spec fn s3_value_after(v0: Option<Seq<char>>, s: S3Setting, configs: Seq<(AmazonS3ConfigKey, String)>) -> Option<Seq<char>>
    decreases configs.len(),
{
    if configs.len() == 0 {
        v0
    } else {
        setting_step(s3_value_after(v0, s, configs.drop_last()), s, configs.last().0, configs.last().1@)
    }
}

/// Relies on the variants of `AmazonS3ConfigKey`: the key of each setting; distinct
/// settings have distinct keys.
#[verifier::external_body]
fn s3_key(s: S3Setting) -> (r: AmazonS3ConfigKey)
    ensures
        r == s3_setting_key(s),
        forall|t: S3Setting| t != s ==> s3_setting_key(t) != r,
{
    match s {
        S3Setting::Region => AmazonS3ConfigKey::Region,
        S3Setting::DefaultRegion => AmazonS3ConfigKey::DefaultRegion,
        S3Setting::AccessKeyId => AmazonS3ConfigKey::AccessKeyId,
        S3Setting::SecretAccessKey => AmazonS3ConfigKey::SecretAccessKey,
        S3Setting::Endpoint => AmazonS3ConfigKey::Endpoint,
    }
}

/// Relies on `AmazonS3Builder::get_config_value`: the value held for a setting's key.
#[verifier::external_body]
fn s3_get(b: &AmazonS3Builder, s: S3Setting, key: &AmazonS3ConfigKey) -> (r: Option<String>)
    requires
        *key == s3_setting_key(s),
    ensures
        r matches Some(v) ==> s3_value(*b, s) == Some(v@),
        r is None ==> s3_value(*b, s) is None,
{
    b.get_config_value(key)
}

/// Relies on `AmazonS3Builder::with_url`: it stores the URL, to be parsed by `build`, and
/// changes no setting.
#[verifier::external_body]
fn s3_with_url(b: AmazonS3Builder, url: &str) -> (r: AmazonS3Builder)
    ensures
        s3_url(r) == Some(url@),
        forall|s: S3Setting| #[trigger] s3_value(r, s) == s3_value(b, s),
{
    b.with_url(url)
}

/// Relies on `AmazonS3Builder::with_config`: it sets the field of its key (the default
/// region only where no region is set) and leaves the URL.
#[verifier::external_body]
fn s3_with_config(b: AmazonS3Builder, key: AmazonS3ConfigKey, value: &str) -> (r: AmazonS3Builder)
    ensures
        s3_url(r) == s3_url(b),
        forall|s: S3Setting| #[trigger] s3_value(r, s) == setting_step(s3_value(b, s), s, key, value@),
{
    b.with_config(key, value)
}

/// Relies on `MicrosoftAzureBuilder::with_url`: the URL that the client addresses.
#[verifier::external_body]
fn azure_with_url(b: MicrosoftAzureBuilder, url: &str) -> MicrosoftAzureBuilder {
    b.with_url(url)
}

/// Relies on `MicrosoftAzureBuilder::with_config`: sets one setting.
#[verifier::external_body]
fn azure_with_config(b: MicrosoftAzureBuilder, key: AzureConfigKey, value: &str) -> MicrosoftAzureBuilder {
    b.with_config(key, value)
}

/// Relies on `GoogleCloudStorageBuilder::with_url`: the URL that the client addresses.
#[verifier::external_body]
fn gcp_with_url(b: GoogleCloudStorageBuilder, url: &str) -> GoogleCloudStorageBuilder {
    b.with_url(url)
}

/// Relies on `GoogleCloudStorageBuilder::with_config`: sets one setting.
#[verifier::external_body]
fn gcp_with_config(b: GoogleCloudStorageBuilder, key: GoogleConfigKey, value: &str) -> GoogleCloudStorageBuilder {
    b.with_config(key, value)
}

/// The retry count and the retry timeout, in seconds, of a `RetryConfig`.
pub uninterp spec fn retry_fields(c: RetryConfig) -> (usize, u64);

/// Relies on the fields of `RetryConfig`, with `BackoffConfig::default` for the backoff.
#[verifier::external_body]
fn retry_config(p: RetryPolicy) -> (r: RetryConfig)
    ensures
        retry_fields(r) == (p.max_retries, p.retry_timeout_secs),
{
    RetryConfig {
        backoff: BackoffConfig::default(),
        max_retries: p.max_retries,
        retry_timeout: std::time::Duration::from_secs(p.retry_timeout_secs),
    }
}

/// Relies on `Display for object_store::Error`: the error's message.
#[verifier::external_body]
fn error_text(e: &object_store::Error) -> String {
    e.to_string()
}

/// Client options shared by every provider: no timeout on a whole request (it would run
/// from the start of a body download) and plain HTTP allowed.
pub fn get_client_options() -> (r: ClientOptions)
    ensures
        client_flags(r) == (false, true),
{
    ClientOptions::new().with_timeout_disabled().with_connect_timeout_disabled().with_allow_http(
        true,
    )
}

/// The outcome of a client build, in the library's terms: the client, or the provider's
/// message as a `ClientConstruction` error.
pub fn build_result<T>(res: Result<T, object_store::Error>) -> (r: Result<T, CloudError>)
    ensures
        r is Ok <==> res is Ok,
        r matches Ok(x) ==> (res matches Ok(y) && x == y),
        r matches Err(e) ==> e is ClientConstruction,
{
    match res {
        Ok(x) => Ok(x),
        Err(e) => Err(CloudError::ClientConstruction(error_text(&e))),
    }
}

/// The S3 overrides of a set of options, in order.
pub open spec fn aws_overrides(o: CloudOptions) -> Seq<(AmazonS3ConfigKey, String)> {
    match o.aws {
        Some(v) => v@,
        None => Seq::empty(),
    }
}

/// The Azure overrides of a set of options, in order.
pub open spec fn azure_overrides(o: CloudOptions) -> Seq<(AzureConfigKey, String)> {
    match o.azure {
        Some(v) => v@,
        None => Seq::empty(),
    }
}

/// The Google Cloud Storage overrides of a set of options, in order.
pub open spec fn gcp_overrides(o: CloudOptions) -> Seq<(GoogleConfigKey, String)> {
    match o.gcp {
        Some(v) => v@,
        None => Seq::empty(),
    }
}

/// A setting's value once the values read for the rules of a credential file were set,
/// in order, on a builder where it was `v0`.
pub open spec fn credentials_after(v0: Option<Seq<char>>, s: S3Setting, rules: Seq<CredentialRule>, values: Seq<Option<String>>) -> Option<Seq<char>>
    decreases values.len(),
{
    if values.len() == 0 {
        v0
    } else {
        let prev = credentials_after(v0, s, rules, values.drop_last());
        match values.last() {
            Some(v) => setting_step(prev, s, s3_setting_key(rules[values.len() - 1].target), v@),
            None => prev,
        }
    }
}

/// The S3 settings that decide where a bucket's region comes from.
pub struct S3RegionSettings {
    /// A region or a default region is set.
    pub region_set: bool,
    /// An endpoint of its own is set.
    pub endpoint_set: bool,
}

impl CloudOptions {
    /// The retry configuration handed to every client: these options' retry count, the
    /// fixed retry timeout and the provider's default backoff.
    pub fn client_retry(&self) -> (r: RetryConfig)
        ensures
            retry_fields(r) == (self.max_retries, RETRY_TIMEOUT_SECS),
    {
        retry_config(self.retry_policy())
    }

    /// The S3 builder for `url`: `env`, the settings from the environment, with the S3
    /// overrides applied over it in order, so that a later pair wins.
    pub fn aws_builder(&self, env: AmazonS3Builder, url: &str) -> (r: AmazonS3Builder)
        ensures
            s3_url(r) == Some(url@),
            forall|s: S3Setting| #[trigger] s3_value(r, s) == s3_value_after(
                s3_value(env, s),
                s,
                aws_overrides(*self),
            ),
    {
        let ghost env0 = env;
        let mut b = s3_with_url(env, url);
        match &self.aws {
            Some(configs) => {
                let mut i: usize = 0;
                while i < configs.len()
                    invariant
                        i <= configs@.len(),
                        configs@ == aws_overrides(*self),
                        s3_url(b) == Some(url@),
                        forall|s: S3Setting| #[trigger] s3_value(b, s) == s3_value_after(
                            s3_value(env0, s),
                            s,
                            configs@.subrange(0, i as int),
                        ),
                    decreases configs@.len() - i,
                {
                    let ghost before = b;
                    b = s3_with_config(b, configs[i].0, configs[i].1.as_str());
                    proof {
                        assert(configs@.subrange(0, i + 1).drop_last() =~= configs@.subrange(0, i as int));
                        assert forall|s: S3Setting| #[trigger] s3_value(b, s) == s3_value_after(
                            s3_value(env0, s),
                            s,
                            configs@.subrange(0, i + 1),
                        ) by {
                            assert(s3_value(before, s) == s3_value_after(s3_value(env0, s), s, configs@.subrange(0, i as int)));
                        }
                    }
                    i = i + 1;
                }
                assert(configs@.subrange(0, configs@.len() as int) =~= configs@);
            },
            None => {},
        }
        b
    }

    /// Builds the S3 client with the shared client options and this retry policy; it
    /// fails exactly where the provider rejects the settings.
    pub fn finish_aws(&self, b: AmazonS3Builder) -> (r: Result<AmazonS3, CloudError>)
        ensures
            r matches Err(e) ==> e is ClientConstruction,
    {
        let retry = self.client_retry();
        build_result(b.with_client_options(get_client_options()).with_retry(retry).build())
    }

    /// The Azure overrides, in order, as they are handed to the builder.
    pub fn azure_pairs(&self) -> (r: Vec<(AzureConfigKey, String)>)
        ensures
            r@.len() == azure_overrides(*self).len(),
            forall|i: int| 0 <= i < r@.len() ==> #[trigger] r@[i] == azure_overrides(*self)[i],
    {
        let mut out: Vec<(AzureConfigKey, String)> = Vec::new();
        match &self.azure {
            Some(configs) => {
                let mut i: usize = 0;
                while i < configs.len()
                    invariant
                        i <= configs@.len(),
                        configs@ == azure_overrides(*self),
                        out@.len() == i,
                        forall|j: int| 0 <= j < i ==> #[trigger] out@[j] == configs@[j],
                    decreases configs@.len() - i,
                {
                    let v = configs[i].1.clone();
                    out.push((configs[i].0, v));
                    i = i + 1;
                }
            },
            None => {},
        }
        out
    }

    /// The Google Cloud Storage overrides, in order, as they are handed to the builder.
    pub fn gcp_pairs(&self) -> (r: Vec<(GoogleConfigKey, String)>)
        ensures
            r@.len() == gcp_overrides(*self).len(),
            forall|i: int| 0 <= i < r@.len() ==> #[trigger] r@[i] == gcp_overrides(*self)[i],
    {
        let mut out: Vec<(GoogleConfigKey, String)> = Vec::new();
        match &self.gcp {
            Some(configs) => {
                let mut i: usize = 0;
                while i < configs.len()
                    invariant
                        i <= configs@.len(),
                        configs@ == gcp_overrides(*self),
                        out@.len() == i,
                        forall|j: int| 0 <= j < i ==> #[trigger] out@[j] == configs@[j],
                    decreases configs@.len() - i,
                {
                    let v = configs[i].1.clone();
                    out.push((configs[i].0, v));
                    i = i + 1;
                }
            },
            None => {},
        }
        out
    }

    /// Builds the Azure client: `env`, the settings from the environment, with the pairs of
    /// `azure_pairs` applied over it in order, the shared client options, the URL and
    /// this retry policy; it fails exactly where the provider rejects the settings.
    pub fn build_azure(&self, env: MicrosoftAzureBuilder, url: &str) -> (r: Result<
        MicrosoftAzure,
        CloudError,
    >)
        ensures
            r matches Err(e) ==> e is ClientConstruction,
    {
        let pairs = self.azure_pairs();
        let mut b = env;
        let mut i: usize = 0;
        while i < pairs.len()
            decreases pairs@.len() - i,
        {
            b = azure_with_config(b, pairs[i].0, pairs[i].1.as_str());
            i = i + 1;
        }
        let b = azure_with_url(b.with_client_options(get_client_options()), url);
        let retry = self.client_retry();
        build_result(b.with_retry(retry).build())
    }

    /// Builds the Google Cloud Storage client: `env`, the settings from the environment,
    /// with the pairs of `gcp_pairs` applied over it in order, the shared client options,
    /// the URL and this retry policy; it fails exactly where the provider rejects the
    /// settings.
    pub fn build_gcp(&self, env: GoogleCloudStorageBuilder, url: &str) -> (r: Result<
        GoogleCloudStorage,
        CloudError,
    >)
        ensures
            r matches Err(e) ==> e is ClientConstruction,
    {
        let pairs = self.gcp_pairs();
        let mut b = env;
        let mut i: usize = 0;
        while i < pairs.len()
            decreases pairs@.len() - i,
        {
            b = gcp_with_config(b, pairs[i].0, pairs[i].1.as_str());
            i = i + 1;
        }
        let b = gcp_with_url(b.with_client_options(get_client_options()), url);
        let retry = self.client_retry();
        build_result(b.with_retry(retry).build())
    }
}

/// The value that the builder holds for a setting.
pub fn s3_setting(b: &AmazonS3Builder, s: S3Setting) -> (r: Option<String>)
    ensures
        r matches Some(v) ==> s3_value(*b, s) == Some(v@),
        r is None ==> s3_value(*b, s) is None,
{
    let key = s3_key(s);
    s3_get(b, s, &key)
}

/// For each rule of a credential file, whether the builder has its setting already.
pub fn credential_flags(b: &AmazonS3Builder, file: &CredentialFile) -> (r: Vec<bool>)
    ensures
        r@.len() == file.rules@.len(),
        forall|i: int| 0 <= i < r@.len() ==> #[trigger] r@[i] == (s3_value(
            *b,
            file.rules@[i].target,
        ) is Some),
{
    let mut out: Vec<bool> = Vec::new();
    let mut i: usize = 0;
    while i < file.rules.len()
        invariant
            i <= file.rules@.len(),
            out@.len() == i,
            forall|j: int| 0 <= j < i ==> #[trigger] out@[j] == (s3_value(
                *b,
                file.rules@[j].target,
            ) is Some),
        decreases file.rules@.len() - i,
    {
        let v = s3_setting(b, file.rules[i].target);
        out.push(v.is_some());
        i = i + 1;
    }
    out
}

/// Sets on the builder each value that was read for a rule of a credential file, in the
/// order of the rules.
pub fn apply_credentials(b: AmazonS3Builder, file: &CredentialFile, values: &Vec<Option<String>>) -> (r: AmazonS3Builder)
    requires
        values@.len() <= file.rules@.len(),
    ensures
        s3_url(r) == s3_url(b),
        forall|s: S3Setting| #[trigger] s3_value(r, s) == credentials_after(
            s3_value(b, s),
            s,
            file.rules@,
            values@,
        ),
{
    let ghost b0 = b;
    let mut b = b;
    let mut i: usize = 0;
    while i < values.len()
        invariant
            i <= values@.len(),
            values@.len() <= file.rules@.len(),
            s3_url(b) == s3_url(b0),
            forall|s: S3Setting| #[trigger] s3_value(b, s) == credentials_after(
                s3_value(b0, s),
                s,
                file.rules@,
                values@.subrange(0, i as int),
            ),
        decreases values@.len() - i,
    {
        let ghost before = b;
        proof {
            assert(values@.subrange(0, i + 1).drop_last() =~= values@.subrange(0, i as int));
        }
        match &values[i] {
            Some(v) => {
                let key = s3_key(file.rules[i].target);
                b = s3_with_config(b, key, v.as_str());
            },
            None => {},
        }
        proof {
            assert forall|s: S3Setting| #[trigger] s3_value(b, s) == credentials_after(
                s3_value(b0, s),
                s,
                file.rules@,
                values@.subrange(0, i + 1),
            ) by {
                assert(s3_value(before, s) == credentials_after(s3_value(b0, s), s, file.rules@, values@.subrange(0, i as int)));
            }
        }
        i = i + 1;
    }
    assert(values@.subrange(0, values@.len() as int) =~= values@);
    b
}

/// A credential file whose rules all target settings that the builder holds needs no
/// reading: every flag that `credential_flags` gives is set, so `file_needed` is false.
pub proof fn lemma_set_targets_skip_file(b: AmazonS3Builder, file: CredentialFile, flags: Seq<bool>)
    requires
        flags.len() == file.rules@.len(),
        forall|i: int| 0 <= i < flags.len() ==> #[trigger] flags[i] == (s3_value(b, file.rules@[i].target) is Some),
        forall|i: int| 0 <= i < file.rules@.len() ==> s3_value(b, #[trigger] file.rules@[i].target) is Some,
    ensures
        !(exists|i: int| 0 <= i < flags.len() && !flags[i]),
{
    assert forall|i: int| 0 <= i < flags.len() implies flags[i] by {
        assert(s3_value(b, file.rules@[i].target) is Some);
    }
}

/// Whether the builder has a region (or default region) and an endpoint of its own.
pub fn region_settings(b: &AmazonS3Builder) -> (r: S3RegionSettings)
    ensures
        r.region_set == (s3_value(*b, S3Setting::DefaultRegion) is Some || s3_value(*b, S3Setting::Region) is Some),
        r.endpoint_set == (s3_value(*b, S3Setting::Endpoint) is Some),
{
    let region_set = s3_setting(b, S3Setting::DefaultRegion).is_some()
        || s3_setting(b, S3Setting::Region).is_some();
    let endpoint_set = s3_setting(b, S3Setting::Endpoint).is_some();
    S3RegionSettings { region_set, endpoint_set }
}

/// Sets the region on the builder; no other setting changes.
pub fn with_region(b: AmazonS3Builder, region: &str) -> (r: AmazonS3Builder)
    ensures
        s3_url(r) == s3_url(b),
        s3_value(r, S3Setting::Region) == Some(region@),
        s3_value(r, S3Setting::DefaultRegion) == Some(region@),
        forall|s: S3Setting| !(s is Region) && !(s is DefaultRegion) ==> #[trigger] s3_value(r, s) == s3_value(b, s),
{
    let key = s3_key(S3Setting::Region);
    s3_with_config(b, key, region)
}

} // verus!
