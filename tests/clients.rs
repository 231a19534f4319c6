use cloud_options::clients::{apply_credentials, build_result, credential_flags, region_settings, s3_setting, with_region};
use cloud_options::s3::S3Setting;
use cloud_options::error::CloudError;
use cloud_options::options::CloudOptions;
use cloud_options::region_cache::RegionCache;
use cloud_options::s3::{aws_credential_files, region_step, RegionStep};
use object_store::aws::{AmazonS3Builder, AmazonS3ConfigKey};
use object_store::azure::{AzureConfigKey, MicrosoftAzureBuilder};
use object_store::gcp::GoogleCloudStorageBuilder;

#[test]
fn overrides_are_applied_in_order() {
    let opts = CloudOptions::default().with_aws(vec![
        (AmazonS3ConfigKey::Region, "eu-west-1".to_string()),
        (AmazonS3ConfigKey::Region, "eu-west-3".to_string()),
    ]);
    let b = opts.aws_builder(AmazonS3Builder::new(), "s3://my-bucket/key");
    assert_eq!(b.get_config_value(&AmazonS3ConfigKey::Region), Some("eu-west-3".to_string()));
    let s = region_settings(&b);
    assert!(s.region_set);
    assert!(!s.endpoint_set);
}

#[test]
fn region_settings_see_endpoint_and_region() {
    let b = AmazonS3Builder::new().with_config(AmazonS3ConfigKey::Endpoint, "http://localhost:9000");
    let s = region_settings(&b);
    assert!(!s.region_set);
    assert!(s.endpoint_set);
    let b = with_region(b, "us-east-1");
    assert!(region_settings(&b).region_set);
    assert_eq!(b.get_config_value(&AmazonS3ConfigKey::Region), Some("us-east-1".to_string()));
    let d = AmazonS3Builder::new().with_config(AmazonS3ConfigKey::DefaultRegion, "x");
    assert!(region_settings(&d).region_set);
}

#[test]
fn credential_values_fill_the_builder() {
    let file = aws_credential_files().remove(1);
    let b = AmazonS3Builder::new().with_config(AmazonS3ConfigKey::AccessKeyId, "AK");
    assert_eq!(credential_flags(&b, &file), vec![true, false]);
    let b = apply_credentials(b, &file, &vec![None, Some("S".to_string())]);
    assert_eq!(credential_flags(&b, &file), vec![true, true]);
    assert_eq!(b.get_config_value(&AmazonS3ConfigKey::AccessKeyId), Some("AK".to_string()));
    assert_eq!(b.get_config_value(&AmazonS3ConfigKey::SecretAccessKey), Some("S".to_string()));
}

#[test]
fn s3_client_builds_from_options() {
    let opts = CloudOptions::default().with_aws(vec![(AmazonS3ConfigKey::Region, "eu-west-1".to_string())]);
    let b = opts.aws_builder(AmazonS3Builder::new(), "s3://my-bucket/key");
    assert!(opts.finish_aws(b).is_ok());
}

#[test]
fn s3_client_without_bucket_fails() {
    let opts = CloudOptions::default();
    let r = opts.finish_aws(AmazonS3Builder::new());
    assert!(matches!(r, Err(CloudError::ClientConstruction(_))));
}

#[test]
fn azure_client_needs_an_account() {
    let opts = CloudOptions::default();
    assert!(matches!(
        opts.build_azure(MicrosoftAzureBuilder::new(), "az://container/path"),
        Err(CloudError::ClientConstruction(_))
    ));
    let opts = opts.with_azure(vec![
        (AzureConfigKey::AccountName, "acct".to_string()),
        (AzureConfigKey::AccessKey, "a2V5".to_string()),
    ]);
    assert!(opts.build_azure(MicrosoftAzureBuilder::new(), "az://container/path").is_ok());
}

#[test]
fn gcp_client_needs_a_bucket() {
    let opts = CloudOptions::default();
    assert!(matches!(
        opts.build_gcp(GoogleCloudStorageBuilder::new(), "not a url"),
        Err(CloudError::ClientConstruction(_))
    ));
}

#[test]
fn s3_region_override_needs_no_probe() {
    let config = vec![("region".to_string(), "eu-west-1".to_string())];
    let opts = CloudOptions::from_untyped_config("s3://my-bucket/key", "/", &config).unwrap();
    let b = opts.aws_builder(AmazonS3Builder::new(), "s3://my-bucket/key");
    let s = region_settings(&b);
    assert!(s.region_set);
    let cache = RegionCache::new();
    assert_eq!(region_step(s.region_set, s.endpoint_set, "my-bucket", &cache), RegionStep::Configured);
    assert_eq!(b.get_config_value(&AmazonS3ConfigKey::Region), Some("eu-west-1".to_string()));
}

#[test]
fn settings_read_through_the_builder() {
    let b = AmazonS3Builder::new()
        .with_config(AmazonS3ConfigKey::DefaultRegion, "eu-south-1")
        .with_config(AmazonS3ConfigKey::DefaultRegion, "ignored");
    assert_eq!(s3_setting(&b, S3Setting::Region), Some("eu-south-1".to_string()));
    assert_eq!(s3_setting(&b, S3Setting::DefaultRegion), Some("eu-south-1".to_string()));
    assert_eq!(s3_setting(&b, S3Setting::Endpoint), None);
}

#[test]
fn override_pairs_are_handed_over_in_order() {
    let opts = CloudOptions::default().with_azure(vec![
        (AzureConfigKey::AccountName, "a".to_string()),
        (AzureConfigKey::AccountName, "b".to_string()),
    ]);
    assert_eq!(
        opts.azure_pairs(),
        vec![(AzureConfigKey::AccountName, "a".to_string()), (AzureConfigKey::AccountName, "b".to_string())]
    );
    assert!(opts.gcp_pairs().is_empty());
}

#[test]
fn build_result_maps_errors() {
    let ok: Result<u8, object_store::Error> = Ok(3);
    assert_eq!(build_result(ok).unwrap(), 3);
    let err: Result<u8, object_store::Error> =
        Err(object_store::Error::NotImplemented);
    assert!(matches!(build_result(err), Err(CloudError::ClientConstruction(_))));
}

#[test]
fn client_retry_follows_max_retries() {
    let r = CloudOptions::default().with_max_retries(5).client_retry();
    assert_eq!(r.max_retries, 5);
    assert_eq!(r.retry_timeout, std::time::Duration::from_secs(10));
}
