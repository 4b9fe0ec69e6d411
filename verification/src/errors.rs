//! Why discovery of the user data can fail.

use vstd::prelude::*;
use vstd::string::*;
use crate::paths::joined;

verus! {

/// A failure to find the user data. Each variant carries what was tried, so
/// that the user can be told what to put right.
#[derive(Debug)]
pub enum DiscoveryError {
    /// The environment variable that anchors the user data is not set.
    EnvironmentVariableMissing { variable: String },
    /// The user data root does not exist on disk.
    SteamFolderNotFound { location_tried: String },
    /// The user data root holds no user folder.
    SteamUsersDataEmpty { location_tried: String },
}

/// Mathematical value of a `DiscoveryError`.
pub enum DiscoveryErrorView {
    EnvironmentVariableMissing { variable: Seq<char> },
    SteamFolderNotFound { location_tried: Seq<char> },
    SteamUsersDataEmpty { location_tried: Seq<char> },
}

impl View for DiscoveryError {
    type V = DiscoveryErrorView;

    open spec fn view(&self) -> DiscoveryErrorView {
        match *self {
            DiscoveryError::EnvironmentVariableMissing { variable } =>
                DiscoveryErrorView::EnvironmentVariableMissing { variable: variable@ },
            DiscoveryError::SteamFolderNotFound { location_tried } =>
                DiscoveryErrorView::SteamFolderNotFound { location_tried: location_tried@ },
            DiscoveryError::SteamUsersDataEmpty { location_tried } =>
                DiscoveryErrorView::SteamUsersDataEmpty { location_tried: location_tried@ },
        }
    }
}

impl DiscoveryErrorView {
    /// The path or variable name that the failed attempt used.
    pub open spec fn subject(self) -> Seq<char> {
        match self {
            DiscoveryErrorView::EnvironmentVariableMissing { variable } => variable,
            DiscoveryErrorView::SteamFolderNotFound { location_tried } => location_tried,
            DiscoveryErrorView::SteamUsersDataEmpty { location_tried } => location_tried,
        }
    }

    /// What the message says before the subject.
    pub open spec fn lead(self) -> Seq<char> {
        match self {
            DiscoveryErrorView::EnvironmentVariableMissing { .. } =>
                "Environment variable is not set: "@,
            DiscoveryErrorView::SteamFolderNotFound { .. } =>
                "Could not find steam user data at location: "@,
            DiscoveryErrorView::SteamUsersDataEmpty { .. } =>
                "Steam users data folder is empty: "@,
        }
    }

    /// What the message says after the subject.
    pub open spec fn advice(self) -> Seq<char> {
        "  Please specify it in the configuration"@
    }

    /// The whole message shown to the user.
    pub open spec fn message(self) -> Seq<char> {
        self.lead() + self.subject() + self.advice()
    }
}

impl DiscoveryError {
    /// The path or variable name that the failed attempt used.
    pub fn description(&self) -> (text: String)
        ensures
            text@ == self@.subject(),
    {
        match self {
            DiscoveryError::EnvironmentVariableMissing { variable } => variable.clone(),
            DiscoveryError::SteamFolderNotFound { location_tried } => location_tried.clone(),
            DiscoveryError::SteamUsersDataEmpty { location_tried } => location_tried.clone(),
        }
    }

    /// The message shown to the user: what went wrong, with what was tried,
    /// and the advice to configure the location.
    pub fn message(&self) -> (text: String)
        ensures
            text@ == self@.message(),
    {
        let mut text = match self {
            DiscoveryError::EnvironmentVariableMissing { variable } =>
                joined("Environment variable is not set: ", variable.as_str()),
            DiscoveryError::SteamFolderNotFound { location_tried } =>
                joined("Could not find steam user data at location: ", location_tried.as_str()),
            DiscoveryError::SteamUsersDataEmpty { location_tried } =>
                joined("Steam users data folder is empty: ", location_tried.as_str()),
        };
        text.append("  Please specify it in the configuration");
        text
    }
}

} // verus!
