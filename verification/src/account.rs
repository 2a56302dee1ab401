//! The account provisioner: the command that creates the system account, the
//! meaning of its exit outcome, and the account that a successful creation
//! leaves behind.

use vstd::prelude::*;
use crate::command::{Diagnostics, Invocation, InvocationView, Outcome};
use crate::error::{AccountCause, ProvisionError};
use crate::resolver::ProvisionRequest;
use crate::text::{join, join_path};

verus! {

/// The command that creates the account `username` with its home directory
/// under `base_directory`: `useradd`, told the base directory, a comment that
/// holds the username, never to mark the account inactive, a shell that
/// admits no interactive login, and to create the home directory. The
/// utility's own output is not discarded.
pub open spec fn creation_command(username: Seq<char>, base_directory: Seq<char>) -> InvocationView {
    InvocationView {
        program: "useradd"@,
        args: seq![
            "--base-dir"@,
            base_directory,
            "--comment"@,
            "mkwebuser "@ + username,
            "--inactive"@,
            "-1"@,
            "--shell"@,
            "/usr/sbin/nologin"@,
            "--create-home"@,
            username,
        ],
        diagnostics: Diagnostics::Surfaced,
    }
}

/// The exit codes to which the user-creation utility gives a meaning of
/// their own.
pub open spec fn documented_code(code: i32) -> bool {
    code == 1 || code == 2 || code == 3 || code == 4 || code == 6 || code == 9 || code == 10
        || code == 12 || code == 13 || code == 14
}

/// Why the account was not created, read off the outcome of the
/// user-creation utility; `None` where it was created.
pub open spec fn failure_cause(outcome: Outcome) -> Option<AccountCause> {
    match outcome {
        Outcome::Exited(code) => if code == 0 {
            None
        } else if code == 1 {
            Some(AccountCause::PasswordFileUpdate)
        } else if code == 2 {
            Some(AccountCause::InvalidSyntax)
        } else if code == 3 {
            Some(AccountCause::InvalidOptionArgument)
        } else if code == 4 {
            Some(AccountCause::UidInUse)
        } else if code == 6 {
            Some(AccountCause::GroupMissing)
        } else if code == 9 {
            Some(AccountCause::UsernameInUse)
        } else if code == 10 {
            Some(AccountCause::GroupFileUpdate)
        } else if code == 12 {
            Some(AccountCause::HomeDirectoryCreation)
        } else if code == 13 {
            Some(AccountCause::MailSpoolCreation)
        } else if code == 14 {
            Some(AccountCause::SecurityMapping)
        } else {
            Some(AccountCause::Unknown)
        },
        Outcome::Signaled => Some(AccountCause::Signaled),
        Outcome::Unobserved => Some(AccountCause::Unobserved),
    }
}

/// The line that confirms the creation of an account.
pub open spec fn created_line(username: Seq<char>, base_directory: Seq<char>) -> Seq<char> {
    "User created: "@ + username + " ("@ + join(base_directory, username) + ")"@
}

/// Every exit code has one meaning. Code 0 alone means success. Two
/// different documented codes never share a cause, a documented code never
/// counts as unknown, and every other code but 0 does.
pub proof fn lemma_exit_codes_have_one_cause(a: i32, b: i32)
    ensures
        failure_cause(Outcome::Exited(a)) is None <==> a == 0,
        documented_code(a) ==> failure_cause(Outcome::Exited(a)) != Some(AccountCause::Unknown),
        documented_code(a) && documented_code(b) && a != b ==> failure_cause(Outcome::Exited(a))
            != failure_cause(Outcome::Exited(b)),
        a != 0 && !documented_code(a) ==> failure_cause(Outcome::Exited(a)) == Some(
            AccountCause::Unknown,
        ),
{
}

/// No outcome but a clean exit counts as a created account, and the causes
/// for a signal and for an unobserved exit status belong to no exit code.
pub proof fn lemma_only_clean_exit_creates(outcome: Outcome)
    ensures
        failure_cause(outcome) is None <==> outcome.succeeded(),
        failure_cause(outcome) == Some(AccountCause::Signaled) <==> outcome == Outcome::Signaled,
        failure_cause(outcome) == Some(AccountCause::Unobserved) <==> outcome
            == Outcome::Unobserved,
{
}

/// Builds the command that creates the requested account.
pub fn creation_invocation(request: &ProvisionRequest) -> (invocation: Invocation)
    ensures
        invocation@ == creation_command(request@.username, request@.base_directory),
{
    let username = request.username();
    let mut comment = String::from_str("mkwebuser ");
    comment.append(username);
    let mut args: Vec<String> = Vec::new();
    args.push(String::from_str("--base-dir"));
    args.push(String::from_str(request.base_directory()));
    args.push(String::from_str("--comment"));
    args.push(comment);
    args.push(String::from_str("--inactive"));
    args.push(String::from_str("-1"));
    args.push(String::from_str("--shell"));
    args.push(String::from_str("/usr/sbin/nologin"));
    args.push(String::from_str("--create-home"));
    args.push(String::from_str(username));
    let invocation = Invocation {
        program: String::from_str("useradd"),
        args,
        diagnostics: Diagnostics::Surfaced,
    };
    assert(invocation@.args =~= creation_command(
        request@.username,
        request@.base_directory,
    ).args);
    invocation
}

/// Reads the outcome of the user-creation utility: the cause of the failure,
/// or `None` where the account was created.
pub fn classify(outcome: Outcome) -> (cause: Option<AccountCause>)
    ensures
        cause == failure_cause(outcome),
{
    match outcome {
        Outcome::Exited(0) => None,
        Outcome::Exited(1) => Some(AccountCause::PasswordFileUpdate),
        Outcome::Exited(2) => Some(AccountCause::InvalidSyntax),
        Outcome::Exited(3) => Some(AccountCause::InvalidOptionArgument),
        Outcome::Exited(4) => Some(AccountCause::UidInUse),
        Outcome::Exited(6) => Some(AccountCause::GroupMissing),
        Outcome::Exited(9) => Some(AccountCause::UsernameInUse),
        Outcome::Exited(10) => Some(AccountCause::GroupFileUpdate),
        Outcome::Exited(12) => Some(AccountCause::HomeDirectoryCreation),
        Outcome::Exited(13) => Some(AccountCause::MailSpoolCreation),
        Outcome::Exited(14) => Some(AccountCause::SecurityMapping),
        Outcome::Exited(_) => Some(AccountCause::Unknown),
        Outcome::Signaled => Some(AccountCause::Signaled),
        Outcome::Unobserved => Some(AccountCause::Unobserved),
    }
}

/// A system account that exists. Its home directory is always its username
/// inside its base directory.
#[derive(Debug, PartialEq, Eq)]
pub struct Account {
    username: String,
    base_directory: String,
    home_directory: String,
}

/// An account as plain text. The home directory is not stored: it follows
/// from the other two.
pub struct AccountView {
    pub username: Seq<char>,
    pub base_directory: Seq<char>,
}

impl AccountView {
    /// The home directory: the username inside the base directory.
    pub open spec fn home_directory(self) -> Seq<char> {
        join(self.base_directory, self.username)
    }
}

impl View for Account {
    type V = AccountView;

    closed spec fn view(&self) -> AccountView {
        AccountView { username: self.username@, base_directory: self.base_directory@ }
    }
}

impl Account {
    #[verifier::type_invariant]
    spec fn home_is_joined(self) -> bool {
        self.home_directory@ == join(self.base_directory@, self.username@)
    }

    /// What the creation of the requested account came to, given the outcome
    /// of the user-creation utility: the account where the utility exited
    /// cleanly, and otherwise the failure with its cause.
    pub fn from_outcome(request: &ProvisionRequest, outcome: Outcome) -> (r: Result<
        Account,
        ProvisionError,
    >)
        ensures
            match r {
                Ok(account) => outcome.succeeded() && account@ == (AccountView {
                    username: request@.username,
                    base_directory: request@.base_directory,
                }),
                Err(e) => failure_cause(outcome) matches Some(cause) && e
                    == (ProvisionError::AccountCreationFailed { cause }),
            },
    {
        match classify(outcome) {
            Some(cause) => Err(ProvisionError::AccountCreationFailed { cause }),
            None => {
                let username = String::from_str(request.username());
                let base_directory = String::from_str(request.base_directory());
                let home_directory = join_path(base_directory.as_str(), username.as_str());
                Ok(Account { username, base_directory, home_directory })
            },
        }
    }

    /// The name of the account.
    pub fn username(&self) -> (name: &str)
        ensures
            name@ == self@.username,
    {
        self.username.as_str()
    }

    /// The root under which the home directory was created.
    pub fn base_directory(&self) -> (dir: &str)
        ensures
            dir@ == self@.base_directory,
    {
        self.base_directory.as_str()
    }

    /// The home directory of the account.
    pub fn home_directory(&self) -> (dir: &str)
        ensures
            dir@ == self@.home_directory(),
    {
        proof {
            use_type_invariant(self);
        }
        self.home_directory.as_str()
    }

    /// The line that confirms the creation of this account.
    pub fn created_line(&self) -> (line: String)
        ensures
            line@ == created_line(self@.username, self@.base_directory),
    {
        proof {
            use_type_invariant(self);
        }
        let mut line = String::from_str("User created: ");
        line.append(self.username.as_str());
        line.append(" (");
        line.append(self.home_directory.as_str());
        line.append(")");
        line
    }
}

} // verus!
