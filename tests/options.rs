use cloud_options::cloud_type::{parse_url, kind_of_scheme, url_scheme, CloudType};
use cloud_options::error::CloudError;
use cloud_options::options::{parsed_untyped_config, get_retry_config, CloudOptions};
use object_store::aws::AmazonS3ConfigKey;
use object_store::azure::AzureConfigKey;
use object_store::gcp::GoogleConfigKey;

fn pairs(items: &[(&str, &str)]) -> Vec<(String, String)> {
    items.iter().map(|(k, v)| (k.to_string(), v.to_string())).collect()
}

#[test]
fn test_parse_url() {
    assert_eq!(
        parse_url(r"http://Users/Jane Doe/data.csv", "/").unwrap(),
        "http://users/Jane%20Doe/data.csv"
    );
    assert_eq!(
        parse_url(r"http://Users/Jane Doe/data.csv", "/tmp").unwrap(),
        "http://users/Jane%20Doe/data.csv"
    );
    assert_eq!(
        parse_url(r"file:///home/Jane Doe/data.csv", "/").unwrap(),
        "file:///home/Jane%20Doe/data.csv"
    );
    assert_eq!(
        parse_url(r"/home/Jane Doe/data.csv", "/").unwrap(),
        "file:///home/Jane%20Doe/data.csv"
    );
    let cwd = "/work/dir";
    assert_eq!(
        parse_url(r"data.csv", cwd).unwrap(),
        url::Url::from_file_path("/work/dir/data.csv").unwrap().as_str()
    );
}

#[test]
fn relative_path_is_resolved_against_cwd() {
    assert_eq!(
        parse_url("data.csv", "/home/Jane Doe").unwrap(),
        "file:///home/Jane%20Doe/data.csv"
    );
    assert_eq!(
        parse_url("sub/data.csv", "/home/").unwrap(),
        "file:///home/sub/data.csv"
    );
}

#[test]
fn relative_path_with_relative_cwd_is_rejected() {
    assert!(matches!(parse_url("data.csv", "work"), Err(CloudError::InvalidInput(_))));
}

#[test]
fn local_file_url_reparses_to_itself() {
    let t = parse_url("dir/My File.csv", "/root").unwrap();
    assert_eq!(t, "file:///root/dir/My%20File.csv");
    assert_eq!(parse_url(&t, "/elsewhere").unwrap(), t);
    assert_eq!(CloudType::from_url(&t).unwrap(), CloudType::File);
}

#[test]
fn malformed_url_is_invalid_input() {
    assert!(matches!(parse_url("http://[::1", "/"), Err(CloudError::InvalidInput(_))));
}

#[test]
fn schemes_select_providers() {
    let cases = [
        ("s3", CloudType::Aws),
        ("s3a", CloudType::Aws),
        ("az", CloudType::Azure),
        ("azure", CloudType::Azure),
        ("adl", CloudType::Azure),
        ("abfs", CloudType::Azure),
        ("abfss", CloudType::Azure),
        ("gs", CloudType::Gcp),
        ("gcp", CloudType::Gcp),
        ("gcs", CloudType::Gcp),
        ("file", CloudType::File),
        ("http", CloudType::Http),
        ("https", CloudType::Http),
    ];
    for (scheme, kind) in cases {
        assert_eq!(kind_of_scheme(scheme), Some(kind));
        let url = format!("{scheme}://bucket/key.parquet");
        assert_eq!(CloudType::from_str(&url, "/").unwrap(), kind);
    }
    assert_eq!(kind_of_scheme("ftp"), None);
    assert_eq!(kind_of_scheme("S3x"), None);
    assert_eq!(kind_of_scheme(""), None);
}

#[test]
fn unknown_scheme_is_invalid_input() {
    assert!(matches!(
        CloudType::from_str("ftp://host/file.csv", "/"),
        Err(CloudError::InvalidInput(_))
    ));
    assert!(matches!(CloudType::from_url("ftp://host/x"), Err(CloudError::InvalidInput(_))));
}

#[test]
fn scheme_is_text_before_colon() {
    assert_eq!(url_scheme("s3://bucket/key"), "s3");
    assert_eq!(url_scheme("nocolon"), "nocolon");
    assert_eq!(url_scheme(":x"), "");
}

#[test]
fn path_without_scheme_is_local_file() {
    assert_eq!(CloudType::from_str("/data/x.csv", "/").unwrap(), CloudType::File);
    assert_eq!(CloudType::from_str("x.csv", "/data").unwrap(), CloudType::File);
}

#[test]
fn typing_keeps_every_pair_in_order() {
    let config = pairs(&[("region", "eu-west-1"), ("aws_access_key_id", "AK"), ("endpoint", "http://e")]);
    let typed = parsed_untyped_config::<AmazonS3ConfigKey>(&config).unwrap();
    assert_eq!(
        typed,
        vec![
            (AmazonS3ConfigKey::Region, "eu-west-1".to_string()),
            (AmazonS3ConfigKey::AccessKeyId, "AK".to_string()),
            (AmazonS3ConfigKey::Endpoint, "http://e".to_string()),
        ]
    );
    let empty: Vec<(String, String)> = vec![];
    assert!(parsed_untyped_config::<AmazonS3ConfigKey>(&empty).unwrap().is_empty());
}

#[test]
fn typing_names_the_unknown_key_wherever_it_stands() {
    for pos in 0..3 {
        let mut items = vec![("region", "r"), ("token", "t")];
        items.insert(pos, ("bogus_key", "v"));
        let config = pairs(&items);
        assert_eq!(
            parsed_untyped_config::<AmazonS3ConfigKey>(&config),
            Err(CloudError::UnknownConfigKey("bogus_key".to_string()))
        );
    }
}

#[test]
fn typing_reports_the_first_unknown_key() {
    let config = pairs(&[("region", "r"), ("first_bad", "a"), ("second_bad", "b")]);
    assert_eq!(
        parsed_untyped_config::<AmazonS3ConfigKey>(&config),
        Err(CloudError::UnknownConfigKey("first_bad".to_string()))
    );
}

#[test]
fn typing_azure_and_gcp_keys() {
    let az = pairs(&[("azure_storage_account_name", "acct")]);
    assert_eq!(
        parsed_untyped_config::<AzureConfigKey>(&az).unwrap(),
        vec![(AzureConfigKey::AccountName, "acct".to_string())]
    );
    let gcp = pairs(&[("google_service_account", "/key.json")]);
    assert_eq!(
        parsed_untyped_config::<GoogleConfigKey>(&gcp).unwrap(),
        vec![(GoogleConfigKey::ServiceAccount, "/key.json".to_string())]
    );
    let wrong = pairs(&[("region", "r")]);
    assert_eq!(
        parsed_untyped_config::<GoogleConfigKey>(&wrong),
        Err(CloudError::UnknownConfigKey("region".to_string()))
    );
}

#[test]
fn options_from_s3_url_with_region_override() {
    let config = pairs(&[("region", "eu-west-1")]);
    let opts = CloudOptions::from_untyped_config("s3://my-bucket/key", "/", &config).unwrap();
    assert_eq!(opts.aws, Some(vec![(AmazonS3ConfigKey::Region, "eu-west-1".to_string())]));
    assert_eq!(opts.max_retries, 2);
    assert!(opts.azure.is_none() && opts.gcp.is_none());
}

#[test]
fn options_for_each_provider() {
    let az = pairs(&[("azure_storage_account_name", "acct")]);
    let o = CloudOptions::from_untyped_config("abfss://c@acct.dfs.core.windows.net/f", "/", &az).unwrap();
    assert_eq!(o.azure, Some(vec![(AzureConfigKey::AccountName, "acct".to_string())]));
    let gcp = pairs(&[("google_bucket", "b")]);
    let o = CloudOptions::from_untyped_config("gs://b/f", "/", &gcp).unwrap();
    assert_eq!(o.gcp, Some(vec![(GoogleConfigKey::Bucket, "b".to_string())]));
    let anything = pairs(&[("whatever", "x")]);
    assert_eq!(
        CloudOptions::from_untyped_config("https://host/f", "/", &anything).unwrap(),
        CloudOptions::default()
    );
    assert_eq!(
        CloudOptions::from_untyped_config("/local/f.csv", "/", &anything).unwrap(),
        CloudOptions::default()
    );
}

#[test]
fn options_errors() {
    let bad = pairs(&[("nope", "x")]);
    assert_eq!(
        CloudOptions::from_untyped_config("s3://b/k", "/", &bad),
        Err(CloudError::UnknownConfigKey("nope".to_string()))
    );
    assert!(matches!(
        CloudOptions::from_untyped_config("ftp://b/k", "/", &bad),
        Err(CloudError::InvalidInput(_))
    ));
}

#[test]
fn max_retries_reaches_the_retry_policy() {
    let opts = CloudOptions::default().with_max_retries(5);
    assert_eq!(opts.max_retries, 5);
    let p = opts.retry_policy();
    assert_eq!(p.max_retries, 5);
    assert_eq!(p.retry_timeout_secs, 10);
    assert_eq!(get_retry_config(0).max_retries, 0);
}

#[test]
fn default_options() {
    let o = CloudOptions::default();
    assert_eq!(o.max_retries, 2);
    assert_eq!(o.file_cache_ttl, 3600);
    assert!(o.aws.is_none());
    let o = o.with_file_cache_ttl(7).with_aws(vec![(AmazonS3ConfigKey::Bucket, "b".to_string())]);
    assert_eq!(o.file_cache_ttl, 7);
    assert_eq!(o.aws.as_ref().unwrap().len(), 1);
    let o = o.with_azure(vec![]).with_gcp(vec![]);
    assert_eq!(o.azure, Some(vec![]));
    assert_eq!(o.gcp, Some(vec![]));
}
