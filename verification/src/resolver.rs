//! The argument resolver: from the configuration as it was supplied to a
//! request in which nothing is left open.
//!
//! One policy holds for the base directory. It names the root under which
//! home directories are created, never a home directory itself. Where it is
//! unset, or cannot be read as text, the root is `/home`, so the home
//! directory of `bob` is `/home/bob`.

use vstd::prelude::*;
use crate::error::ProvisionError;
use crate::text::{join, join_path};

verus! {

/// The volume size in megabytes where the configuration names none.
pub const DEFAULT_QUOTA_MEGABYTES: u64 = 1024;

/// The root for home directories where the configuration names none.
pub open spec fn default_base_directory() -> Seq<char> {
    "/home"@
}

/// The base directory as the configuration supplied it.
#[derive(Debug, PartialEq, Eq)]
pub enum BaseSetting {
    /// No base directory was given.
    Unset,
    /// A base directory was given, but it is not valid text.
    Unparseable,
    /// A base directory was given as this path.
    Given(String),
}

impl BaseSetting {
    /// The base directory that a run uses for this setting.
    pub open spec fn resolved(self) -> Seq<char> {
        match self {
            BaseSetting::Given(path) => path@,
            _ => default_base_directory(),
        }
    }
}

/// The size that a run uses for the quota as it was supplied.
pub open spec fn resolved_quota(quota: Option<u64>) -> u64 {
    match quota {
        Some(megabytes) => megabytes,
        None => DEFAULT_QUOTA_MEGABYTES,
    }
}

/// The request that a configuration with a username resolves to: the
/// username as given, the resolved base directory and the resolved quota.
pub open spec fn resolved_request(
    username: Seq<char>,
    base: BaseSetting,
    quota: Option<u64>,
) -> RequestView {
    RequestView {
        username,
        base_directory: base.resolved(),
        quota_megabytes: resolved_quota(quota),
    }
}

/// The resolution policy. A base directory that is unset or unparseable
/// always resolves to `/home`, and one that is given resolves to itself.
/// Either way the home directory is exactly the base directory, a `/`, and
/// the username. A quota that is unset resolves to 1024, and one that is
/// given resolves to itself.
pub proof fn lemma_resolution_policy(username: Seq<char>, base: BaseSetting, quota: Option<u64>)
    ensures
        base is Unset || base is Unparseable ==> resolved_request(
            username,
            base,
            quota,
        ).base_directory == "/home"@,
        base matches BaseSetting::Given(path) ==> resolved_request(
            username,
            base,
            quota,
        ).base_directory == path@,
        resolved_request(username, base, quota).home_directory() == base.resolved() + seq!['/']
            + username,
        quota is None ==> resolved_request(username, base, quota).quota_megabytes == 1024,
        quota matches Some(megabytes) ==> resolved_request(username, base, quota).quota_megabytes
            == megabytes,
{
}

/// What is to be provisioned, fully resolved. The username is never empty.
#[derive(Debug, PartialEq, Eq)]
pub struct ProvisionRequest {
    username: String,
    base_directory: String,
    quota_megabytes: u64,
}

/// A request as plain values.
pub struct RequestView {
    pub username: Seq<char>,
    pub base_directory: Seq<char>,
    pub quota_megabytes: u64,
}

impl RequestView {
    /// Where the home directory of the requested account will be.
    pub open spec fn home_directory(self) -> Seq<char> {
        join(self.base_directory, self.username)
    }
}

impl View for ProvisionRequest {
    type V = RequestView;

    closed spec fn view(&self) -> RequestView {
        RequestView {
            username: self.username@,
            base_directory: self.base_directory@,
            quota_megabytes: self.quota_megabytes,
        }
    }
}

impl ProvisionRequest {
    #[verifier::type_invariant]
    spec fn named(self) -> bool {
        self.username@.len() > 0
    }

    /// The name of the account to create. It is not empty.
    pub fn username(&self) -> (name: &str)
        ensures
            name@ == self@.username,
            name@.len() > 0,
    {
        proof {
            use_type_invariant(self);
        }
        self.username.as_str()
    }

    /// The root under which the home directory is created.
    pub fn base_directory(&self) -> (dir: &str)
        ensures
            dir@ == self@.base_directory,
    {
        self.base_directory.as_str()
    }

    /// The size of the volume, in megabytes.
    pub fn quota_megabytes(&self) -> (megabytes: u64)
        ensures
            megabytes == self@.quota_megabytes,
    {
        self.quota_megabytes
    }

    /// Where the home directory of the requested account will be: the
    /// username inside the base directory.
    pub fn home_directory(&self) -> (dir: String)
        ensures
            dir@ == self@.home_directory(),
    {
        join_path(self.base_directory.as_str(), self.username.as_str())
    }
}

/// Resolves the configuration as supplied.
///
/// An empty username is refused as invalid input; nothing else is. Otherwise
/// the request carries the username as given, the base directory that was
/// given or else `/home`, and the quota that was given or else 1024.
pub fn resolve(username: String, base: BaseSetting, quota: Option<u64>) -> (r: Result<
    ProvisionRequest,
    ProvisionError,
>)
    ensures
        match r {
            Ok(request) => username@.len() > 0 && request@ == resolved_request(
                username@,
                base,
                quota,
            ),
            Err(e) => username@.len() == 0 && e == ProvisionError::InvalidInput,
        },
{
    if username.as_str().is_empty() {
        return Err(ProvisionError::InvalidInput);
    }
    let base_directory = match base {
        BaseSetting::Given(path) => path,
        _ => String::from_str("/home"),
    };
    let quota_megabytes: u64 = match quota {
        Some(megabytes) => megabytes,
        None => DEFAULT_QUOTA_MEGABYTES,
    };
    Ok(ProvisionRequest { username, base_directory, quota_megabytes })
}

} // verus!
