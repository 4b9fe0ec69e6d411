//! User settings, and the choice of the user data root that they govern.

use vstd::prelude::*;
use vstd::string::*;
use crate::errors::{DiscoveryError, DiscoveryErrorView};
use crate::paths::{platform_root, root_variable, spec_platform_root, spec_root_variable, Platform};

verus! {

/// What the user has configured about Steam.
#[derive(Debug, Clone)]
pub struct SteamSettings {
    /// Where the user data is, if not at the platform's usual place.
    pub location: Option<String>,
    pub create_collections: bool,
    pub optimize_for_big_picture: bool,
}

/// The user data root for a configured location and the value of the
/// platform's anchor variable: the configured location wins; without it the
/// variable must be set.
pub open spec fn spec_userdata_root(
    location: Option<Seq<char>>,
    platform: Platform,
    anchor: Option<Seq<char>>,
) -> Result<Seq<char>, DiscoveryErrorView> {
    match location {
        Some(configured) => Ok(configured),
        None => match anchor {
            Some(base) => Ok(spec_platform_root(platform, base)),
            None => Err(
                DiscoveryErrorView::EnvironmentVariableMissing {
                    variable: spec_root_variable(platform),
                },
            ),
        },
    }
}

/// Views of an optional string.
pub open spec fn text_of(value: Option<String>) -> Option<Seq<char>> {
    match value {
        Some(text) => Some(text@),
        None => None,
    }
}

/// Views of a root or the error in its place.
pub open spec fn root_outcome(
    outcome: Result<String, DiscoveryError>,
) -> Result<Seq<char>, DiscoveryErrorView> {
    match outcome {
        Ok(root) => Ok(root@),
        Err(error) => Err(error@),
    }
}

impl SteamSettings {
    /// The user data root. `anchor` is the value of the environment variable
    /// that `root_variable` names for `platform`, `None` if it is not set; it
    /// is not consulted when a location is configured.
    pub fn userdata_root(&self, platform: Platform, anchor: &Option<String>) -> (root: Result<
        String,
        DiscoveryError,
    >)
        ensures
            root_outcome(root) == spec_userdata_root(
                text_of(self.location),
                platform,
                text_of(*anchor),
            ),
    {
        match &self.location {
            Some(configured) => Ok(configured.clone()),
            None => match anchor {
                Some(base) => Ok(platform_root(platform, base.as_str())),
                None => Err(
                    DiscoveryError::EnvironmentVariableMissing {
                        variable: String::from_str(root_variable(platform)),
                    },
                ),
            },
        }
    }
}

} // verus!
