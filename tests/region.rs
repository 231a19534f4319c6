use cloud_options::region_cache::{RegionCache, REGION_CACHE_SIZE};
use cloud_options::s3::{
    aws_credential_files, bucket_of, file_needed, read_credentials, region_from_probe, region_step,
    S3Setting, CredentialRule, RegionStep,
};

#[test]
fn lookup_after_insert_finds_region() {
    let mut c = RegionCache::new();
    assert_eq!(c.get("b"), None);
    c.insert("b".to_string(), "eu-west-1".to_string());
    assert_eq!(c.get("b"), Some("eu-west-1".to_string()));
    c.insert("b".to_string(), "us-east-2".to_string());
    assert_eq!(c.get("b"), Some("us-east-2".to_string()));
}

#[test]
fn cache_never_exceeds_its_bound() {
    let mut c = RegionCache::new();
    for i in 0..100 {
        let b = format!("bucket-{i}");
        c.insert(b.clone(), format!("region-{i}"));
        assert_eq!(c.get(&b), Some(format!("region-{i}")));
    }
    let held = (0..100).filter(|i| c.get(&format!("bucket-{i}")).is_some()).count();
    assert!(held <= REGION_CACHE_SIZE);
    assert!(held > 0);
}

#[test]
fn region_step_configured_wins() {
    let mut c = RegionCache::new();
    c.insert("b".to_string(), "r".to_string());
    assert_eq!(region_step(true, true, "b", &c), RegionStep::Configured);
    assert_eq!(region_step(true, false, "x", &c), RegionStep::Configured);
}

#[test]
fn region_step_cache_before_fallback() {
    let mut c = RegionCache::new();
    c.insert("b".to_string(), "ap-south-1".to_string());
    assert_eq!(region_step(false, true, "b", &c), RegionStep::Cached("ap-south-1".to_string()));
}

#[test]
fn region_step_endpoint_uses_fallback_without_probe() {
    let c = RegionCache::new();
    assert_eq!(region_step(false, true, "b", &c), RegionStep::Fallback("us-east-1".to_string()));
}

#[test]
fn region_step_probes_otherwise() {
    let c = RegionCache::new();
    assert_eq!(
        region_step(false, false, "my-bucket", &c),
        RegionStep::Probe("https://my-bucket.s3.amazonaws.com".to_string())
    );
}

#[test]
fn probe_result_is_cached() {
    let mut c = RegionCache::new();
    let r = region_from_probe(&mut c, "b".to_string(), Some(b"eu-central-1".to_vec()));
    assert_eq!(r, Some("eu-central-1".to_string()));
    assert_eq!(c.get("b"), Some("eu-central-1".to_string()));
    assert_eq!(region_step(false, false, "b", &c), RegionStep::Cached("eu-central-1".to_string()));
}

#[test]
fn probe_without_region_changes_nothing() {
    let mut c = RegionCache::new();
    assert_eq!(region_from_probe(&mut c, "b".to_string(), None), None);
    assert_eq!(region_from_probe(&mut c, "b".to_string(), Some(vec![0xff, 0xfe])), None);
    assert_eq!(c.get("b"), None);
}

#[test]
fn bucket_is_the_host() {
    assert_eq!(bucket_of("s3://my-bucket/key"), Some("my-bucket".to_string()));
    assert_eq!(bucket_of("not a url"), None);
}

#[test]
fn skip_file_when_all_targets_set() {
    assert!(!file_needed(&vec![true]));
    assert!(!file_needed(&vec![true, true]));
    assert!(!file_needed(&vec![]));
    assert!(file_needed(&vec![true, false]));
    assert!(file_needed(&vec![false]));
}

#[test]
fn credential_files_are_fixed() {
    let files = aws_credential_files();
    assert_eq!(files.len(), 2);
    assert_eq!(files[0].path, "~/.aws/config");
    assert_eq!(files[0].rules[0].pattern, "region = (.*)\n");
    assert_eq!(files[0].rules[0].target, S3Setting::Region);
    assert_eq!(files[1].path, "~/.aws/credentials");
    assert_eq!(files[1].rules[1].target, S3Setting::SecretAccessKey);
}

fn rules() -> Vec<CredentialRule> {
    aws_credential_files().remove(1).rules
}

#[test]
fn credentials_are_read_from_text() {
    let text = "[default]\naws_access_key_id = AKID\naws_secret_access_key = SECRET-REDACTED\n";
    assert_eq!(
        read_credentials(text, &rules(), &vec![false, false]),
        vec![Some("AKID".to_string()), Some("SECRET-REDACTED".to_string())]
    );
    assert_eq!(
        read_credentials(text, &rules(), &vec![true, false]),
        vec![None, Some("SECRET-REDACTED".to_string())]
    );
}

#[test]
fn missing_pattern_stops_the_reading() {
    let text = "aws_secret_access_key = S\n";
    assert_eq!(read_credentials(text, &rules(), &vec![false, false]), vec![]);
    let region_rules = aws_credential_files().remove(0).rules;
    assert_eq!(
        read_credentials("region = eu-north-1\n", &region_rules, &vec![false]),
        vec![Some("eu-north-1".to_string())]
    );
}
