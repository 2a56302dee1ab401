//! Why a run ended without a provisioned user.

use vstd::prelude::*;

verus! {

/// Why the user-creation utility did not create the account.
#[derive(Clone, Copy, Debug, PartialEq, Eq, Structural)]
pub enum AccountCause {
    /// The password file could not be updated.
    PasswordFileUpdate,
    /// The command line was not understood.
    InvalidSyntax,
    /// An option was given an argument that it does not accept.
    InvalidOptionArgument,
    /// The user id is taken.
    UidInUse,
    /// The group that was named does not exist.
    GroupMissing,
    /// The username is taken.
    UsernameInUse,
    /// The group file could not be updated.
    GroupFileUpdate,
    /// The home directory could not be created.
    HomeDirectoryCreation,
    /// The mail spool could not be created.
    MailSpoolCreation,
    /// The SELinux user mapping could not be updated.
    SecurityMapping,
    /// The utility was ended by a signal.
    Signaled,
    /// The utility exited with a code that stands for none of the above.
    Unknown,
    /// No exit status could be obtained, so the outcome cannot be determined.
    Unobserved,
}

/// The first failure of a run. Every failure ends the run.
#[derive(Clone, Copy, Debug, PartialEq, Eq, Structural)]
pub enum ProvisionError {
    /// The configuration lacks a username.
    InvalidInput,
    /// The account was not created.
    AccountCreationFailed { cause: AccountCause },
    /// The backing file was not allocated.
    VolumeAllocationFailed,
    /// The backing file was allocated but not formatted.
    VolumeFormatFailed,
}

impl AccountCause {
    /// The cause in words.
    pub open spec fn reason(self) -> Seq<char> {
        match self {
            AccountCause::PasswordFileUpdate => "Unable to update password file"@,
            AccountCause::InvalidSyntax => "Invalid command syntax"@,
            AccountCause::InvalidOptionArgument => "Invalid argument to option"@,
            AccountCause::UidInUse => "UID already in use"@,
            AccountCause::GroupMissing => "The specified group does not exist"@,
            AccountCause::UsernameInUse => "Username already in use"@,
            AccountCause::GroupFileUpdate => "Failed to update group file"@,
            AccountCause::HomeDirectoryCreation => "Failed to create home directory"@,
            AccountCause::MailSpoolCreation => "Failed to create mail spool"@,
            AccountCause::SecurityMapping => "Failed to update SELinux user mapping"@,
            AccountCause::Signaled => "Process terminated by signal"@,
            AccountCause::Unknown => "Unknown"@,
            AccountCause::Unobserved => "Unable to get exit status"@,
        }
    }

    /// The cause in words, for the operator.
    pub fn describe(&self) -> (text: &'static str)
        ensures
            text@ == self.reason(),
    {
        match self {
            AccountCause::PasswordFileUpdate => "Unable to update password file",
            AccountCause::InvalidSyntax => "Invalid command syntax",
            AccountCause::InvalidOptionArgument => "Invalid argument to option",
            AccountCause::UidInUse => "UID already in use",
            AccountCause::GroupMissing => "The specified group does not exist",
            AccountCause::UsernameInUse => "Username already in use",
            AccountCause::GroupFileUpdate => "Failed to update group file",
            AccountCause::HomeDirectoryCreation => "Failed to create home directory",
            AccountCause::MailSpoolCreation => "Failed to create mail spool",
            AccountCause::SecurityMapping => "Failed to update SELinux user mapping",
            AccountCause::Signaled => "Process terminated by signal",
            AccountCause::Unknown => "Unknown",
            AccountCause::Unobserved => "Unable to get exit status",
        }
    }
}

impl ProvisionError {
    /// The one line that is shown for this failure: the stage that failed
    /// and, where the stage tells causes apart, the cause.
    pub open spec fn message(self) -> Seq<char> {
        match self {
            ProvisionError::InvalidInput => "invalid input: the username is empty"@,
            ProvisionError::AccountCreationFailed { cause } => "account creation failed: "@
                + cause.reason(),
            ProvisionError::VolumeAllocationFailed => "volume allocation failed"@,
            ProvisionError::VolumeFormatFailed => "volume formatting failed"@,
        }
    }

    /// Describes the failure in one line.
    pub fn describe(&self) -> (text: String)
        ensures
            text@ == self.message(),
    {
        match self {
            ProvisionError::InvalidInput => String::from_str(
                "invalid input: the username is empty",
            ),
            ProvisionError::AccountCreationFailed { cause } => {
                let mut text = String::from_str("account creation failed: ");
                text.append(cause.describe());
                text
            },
            ProvisionError::VolumeAllocationFailed => String::from_str("volume allocation failed"),
            ProvisionError::VolumeFormatFailed => String::from_str("volume formatting failed"),
        }
    }
}

} // verus!
