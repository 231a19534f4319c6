use vstd::prelude::*;

verus! {

/// What can go wrong while options are resolved.
#[derive(Debug, Clone, PartialEq, Eq)]
pub enum CloudError {
    /// The path or URL names no storage provider that is known here.
    InvalidInput(String),
    /// An override key that the provider does not recognise.
    UnknownConfigKey(String),
    /// The provider's support is not part of this build.
    FeatureUnavailable(String),
    /// The provider client rejected the merged configuration.
    ClientConstruction(String),
}

} // verus!
