use vstd::prelude::*;
use object_store::aws::AmazonS3ConfigKey;
use object_store::azure::AzureConfigKey;
use object_store::gcp::GoogleConfigKey;

verus! {

#[verifier::external_type_specification]
#[verifier::external_body]
pub struct ExAmazonS3ConfigKey(AmazonS3ConfigKey);

#[verifier::external_type_specification]
#[verifier::external_body]
pub struct ExAzureConfigKey(AzureConfigKey);

#[verifier::external_type_specification]
#[verifier::external_body]
pub struct ExGoogleConfigKey(GoogleConfigKey);

/// The key that `AmazonS3ConfigKey::from_str` makes of a text, if it names one.
pub uninterp spec fn aws_key_parsed(s: Seq<char>) -> Option<AmazonS3ConfigKey>;

/// The key that `AzureConfigKey::from_str` makes of a text, if it names one.
pub uninterp spec fn azure_key_parsed(s: Seq<char>) -> Option<AzureConfigKey>;

/// The key that `GoogleConfigKey::from_str` makes of a text, if it names one.
pub uninterp spec fn gcp_key_parsed(s: Seq<char>) -> Option<GoogleConfigKey>;

/// Relies on `FromStr for AmazonS3ConfigKey`: a fixed table of key names, so the
/// outcome depends on the text alone.
#[verifier::external_body]
fn parse_aws_key(s: &str) -> (r: Option<AmazonS3ConfigKey>)
    ensures
        r == aws_key_parsed(s@),
{
    s.parse::<AmazonS3ConfigKey>().ok()
}

/// Relies on `FromStr for AzureConfigKey`: a fixed table of key names, so the
/// outcome depends on the text alone.
#[verifier::external_body]
fn parse_azure_key(s: &str) -> (r: Option<AzureConfigKey>)
    ensures
        r == azure_key_parsed(s@),
{
    s.parse::<AzureConfigKey>().ok()
}

/// Relies on `FromStr for GoogleConfigKey`: a fixed table of key names, so the
/// outcome depends on the text alone.
#[verifier::external_body]
fn parse_gcp_key(s: &str) -> (r: Option<GoogleConfigKey>)
    ensures
        r == gcp_key_parsed(s@),
{
    s.parse::<GoogleConfigKey>().ok()
}

/// A provider's typed configuration key.
pub trait ConfigKey: Sized {
    /// The key that a text names, if any.
    spec fn parsed(s: Seq<char>) -> Option<Self>;

    /// The key that a text names.
    fn parse_key(s: &str) -> (r: Option<Self>)
        ensures
            r == Self::parsed(s@),
    ;
}

impl ConfigKey for AmazonS3ConfigKey {
    open spec fn parsed(s: Seq<char>) -> Option<Self> {
        aws_key_parsed(s)
    }

    fn parse_key(s: &str) -> (r: Option<Self>) {
        parse_aws_key(s)
    }
}

impl ConfigKey for AzureConfigKey {
    open spec fn parsed(s: Seq<char>) -> Option<Self> {
        azure_key_parsed(s)
    }

    fn parse_key(s: &str) -> (r: Option<Self>) {
        parse_azure_key(s)
    }
}

impl ConfigKey for GoogleConfigKey {
    open spec fn parsed(s: Seq<char>) -> Option<Self> {
        gcp_key_parsed(s)
    }

    fn parse_key(s: &str) -> (r: Option<Self>) {
        parse_gcp_key(s)
    }
}

} // verus!
