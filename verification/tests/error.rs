use mkwebuser::error::{AccountCause, ProvisionError};

#[test]
fn every_cause_has_its_own_words() {
    let causes = [
        (AccountCause::PasswordFileUpdate, "Unable to update password file"),
        (AccountCause::InvalidSyntax, "Invalid command syntax"),
        (AccountCause::InvalidOptionArgument, "Invalid argument to option"),
        (AccountCause::UidInUse, "UID already in use"),
        (AccountCause::GroupMissing, "The specified group does not exist"),
        (AccountCause::UsernameInUse, "Username already in use"),
        (AccountCause::GroupFileUpdate, "Failed to update group file"),
        (AccountCause::HomeDirectoryCreation, "Failed to create home directory"),
        (AccountCause::MailSpoolCreation, "Failed to create mail spool"),
        (AccountCause::SecurityMapping, "Failed to update SELinux user mapping"),
        (AccountCause::Signaled, "Process terminated by signal"),
        (AccountCause::Unknown, "Unknown"),
        (AccountCause::Unobserved, "Unable to get exit status"),
    ];
    for (cause, words) in causes {
        assert_eq!(cause.describe(), words);
    }
    for (i, (_, a)) in causes.iter().enumerate() {
        for (j, (_, b)) in causes.iter().enumerate() {
            if i != j {
                assert_ne!(a, b);
            }
        }
    }
}

#[test]
fn a_failure_is_described_by_stage_and_cause() {
    assert_eq!(
        ProvisionError::InvalidInput.describe(),
        "invalid input: the username is empty"
    );
    assert_eq!(
        ProvisionError::AccountCreationFailed { cause: AccountCause::UsernameInUse }.describe(),
        "account creation failed: Username already in use"
    );
    assert_eq!(
        ProvisionError::AccountCreationFailed { cause: AccountCause::Unobserved }.describe(),
        "account creation failed: Unable to get exit status"
    );
    assert_eq!(
        ProvisionError::VolumeAllocationFailed.describe(),
        "volume allocation failed"
    );
    assert_eq!(ProvisionError::VolumeFormatFailed.describe(), "volume formatting failed");
}
