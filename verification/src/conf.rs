//! What the server is configured with at start.

use crate::git::Tracking;
use vstd::prelude::*;

verus! {

#[derive(Debug, Clone, PartialEq, Eq)]
pub struct Config {
    /// The directory that is served, a working copy of the site.
    pub site_root: String,
    pub ssh: SSHConf,
    /// What the working copy follows.
    pub tracking: Tracking,
}

/// The SSH key pair to fetch with, as loaded: paths to the two keys, the
/// account where one is set, and the passphrase where the private key has
/// one.
#[derive(Debug, Clone, PartialEq, Eq)]
pub struct SSHConf {
    pub username: Option<String>,
    pub passphrase: Option<String>,
    pub public_key: String,
    pub private_key: String,
}

/// What a configuration lacks.
#[derive(Debug, Clone, Copy, PartialEq, Eq, Structural)]
pub enum ConfigError {
    MissingSiteRoot,
    MissingPublicKey,
    MissingPrivateKey,
    MissingRemote,
    MissingBranch,
}

/// The first thing that a configuration lacks, if it lacks any: the
/// directory to serve, the two key paths, and the names of the remote and
/// the branch to follow must not be empty.
pub open spec fn first_gap(config: &Config) -> Option<ConfigError> {
    if config.site_root@.len() == 0 {
        Some(ConfigError::MissingSiteRoot)
    } else if config.ssh.public_key@.len() == 0 {
        Some(ConfigError::MissingPublicKey)
    } else if config.ssh.private_key@.len() == 0 {
        Some(ConfigError::MissingPrivateKey)
    } else if config.tracking.remote@.len() == 0 {
        Some(ConfigError::MissingRemote)
    } else if config.tracking.branch@.len() == 0 {
        Some(ConfigError::MissingBranch)
    } else {
        None
    }
}

impl Config {
    /// Checks at start that nothing required is missing, so that no
    /// synchronisation is attempted with half a configuration.
    pub fn validate(&self) -> (r: Result<(), ConfigError>)
        ensures
            match first_gap(self) {
                Some(gap) => r == Err::<(), ConfigError>(gap),
                None => r is Ok,
            },
    {
        if self.site_root.as_str().is_empty() {
            Err(ConfigError::MissingSiteRoot)
        } else if self.ssh.public_key.as_str().is_empty() {
            Err(ConfigError::MissingPublicKey)
        } else if self.ssh.private_key.as_str().is_empty() {
            Err(ConfigError::MissingPrivateKey)
        } else if self.tracking.remote.as_str().is_empty() {
            Err(ConfigError::MissingRemote)
        } else if self.tracking.branch.as_str().is_empty() {
            Err(ConfigError::MissingBranch)
        } else {
            Ok(())
        }
    }
}

impl SSHConf {
    /// The same configuration, borrowed for one synchronisation.
    pub fn borrowed(&self) -> (ssh: crate::git::SSHConf<'_>)
        ensures
            ssh.username.deep_view() == self.username.deep_view(),
            ssh.passphrase.deep_view() == self.passphrase.deep_view(),
            ssh.public_key@ == self.public_key@,
            ssh.private_key@ == self.private_key@,
    {
        let username = match &self.username {
            Some(name) => Some(name.as_str()),
            None => None,
        };
        let passphrase = match &self.passphrase {
            Some(phrase) => Some(phrase.as_str()),
            None => None,
        };
        crate::git::SSHConf {
            username,
            public_key: self.public_key.as_str(),
            private_key: self.private_key.as_str(),
            passphrase,
        }
    }
}

} // verus!
