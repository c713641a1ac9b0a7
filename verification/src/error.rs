//! Errors reported by the library.
use vstd::prelude::*;

verus! {

/// An error in the site configuration or in a page.
#[derive(Debug, Clone, PartialEq, Eq)]
pub enum OxidocError {
    /// A search provider is missing a required configuration field.
    SearchProviderConfig { provider: String, field: String },
    /// A page has a part that does not parse.
    RdxParse { path: String, message: String },
}

impl OxidocError {
    /// The error message.
    pub fn message(&self) -> (r: String)
        ensures
            match self {
                OxidocError::SearchProviderConfig { provider, field } => r@ == "Search provider '"@
                    + provider@ + "' requires field '"@ + field@ + "'"@,
                OxidocError::RdxParse { path, message } => r@ == "Failed to parse "@ + path@ + ": "@
                    + message@,
            },
    {
        match self {
            OxidocError::SearchProviderConfig { provider, field } => {
                let mut r = String::from_str("Search provider '");
                r.append(provider.as_str());
                r.append("' requires field '");
                r.append(field.as_str());
                r.append("'");
                r
            },
            OxidocError::RdxParse { path, message } => {
                let mut r = String::from_str("Failed to parse ");
                r.append(path.as_str());
                r.append(": ");
                r.append(message.as_str());
                r
            },
        }
    }
}

} // verus!
