//! The volume provisioner: the command that allocates the backing file, the
//! command that formats it, the meaning of their exit outcomes, and the volume
//! that is there once both have succeeded.
//!
//! Nothing here removes a file. A backing file that was allocated and could
//! not be formatted stays where it is.

use vstd::prelude::*;
use crate::account::Account;
use crate::command::{Diagnostics, Invocation, InvocationView, Outcome};
use crate::error::ProvisionError;
use crate::text::{decimal, decimal_string, join, join_path};

verus! {

/// The logical name of the volume, which is also the name of its backing
/// file.
pub open spec fn volume_name() -> Seq<char> {
    "volume"@
}

/// Where the backing file of the volume lies, given the home directory of
/// the account that owns it.
pub open spec fn volume_path(home_directory: Seq<char>) -> Seq<char> {
    join(home_directory, volume_name())
}

/// The command that allocates the backing file at `path`: `dd` copies one
/// block of `megabytes` megabytes of zeros there.
pub open spec fn allocation_command(
    path: Seq<char>,
    megabytes: u64,
    diagnostics: Diagnostics,
) -> InvocationView {
    InvocationView {
        program: "dd"@,
        args: seq![
            "if=/dev/zero"@,
            "of="@ + path,
            "bs="@ + decimal(megabytes as nat) + "M"@,
            "count=1"@,
        ],
        diagnostics,
    }
}

/// The command that formats the backing file at `path` with ext4.
pub open spec fn format_command(path: Seq<char>, diagnostics: Diagnostics) -> InvocationView {
    InvocationView { program: "mkfs.ext4"@, args: seq![path], diagnostics }
}

/// The line that confirms the allocation of a backing file.
pub open spec fn allocated_line(megabytes: u64, path: Seq<char>) -> Seq<char> {
    "Space created: "@ + decimal(megabytes as nat) + "M ("@ + path + ")"@
}

/// The line that confirms the formatting of a backing file.
pub open spec fn formatted_line(path: Seq<char>) -> Seq<char> {
    "Space formatted: ext4 ("@ + path + ")"@
}

/// Builds the path of the backing file of the volume that `account` owns.
pub fn backing_file(account: &Account) -> (path: String)
    ensures
        path@ == volume_path(account@.home_directory()),
{
    join_path(account.home_directory(), "volume")
}

/// Builds the command that allocates the backing file of `megabytes`
/// megabytes for `account`.
pub fn allocation_invocation(account: &Account, megabytes: u64, diagnostics: Diagnostics) -> (invocation:
    Invocation)
    ensures
        invocation@ == allocation_command(
            volume_path(account@.home_directory()),
            megabytes,
            diagnostics,
        ),
{
    let path = backing_file(account);
    let mut destination = String::from_str("of=");
    destination.append(path.as_str());
    let mut block_size = String::from_str("bs=");
    block_size.append(decimal_string(megabytes).as_str());
    block_size.append("M");
    let mut args: Vec<String> = Vec::new();
    args.push(String::from_str("if=/dev/zero"));
    args.push(destination);
    args.push(block_size);
    args.push(String::from_str("count=1"));
    let invocation = Invocation { program: String::from_str("dd"), args, diagnostics };
    assert(invocation@.args =~= allocation_command(
        volume_path(account@.home_directory()),
        megabytes,
        diagnostics,
    ).args);
    invocation
}

/// Builds the command that formats the backing file of the volume that
/// `account` owns.
pub fn format_invocation(account: &Account, diagnostics: Diagnostics) -> (invocation: Invocation)
    ensures
        invocation@ == format_command(volume_path(account@.home_directory()), diagnostics),
{
    let mut args: Vec<String> = Vec::new();
    args.push(backing_file(account));
    let invocation = Invocation { program: String::from_str("mkfs.ext4"), args, diagnostics };
    assert(invocation@.args =~= format_command(
        volume_path(account@.home_directory()),
        diagnostics,
    ).args);
    invocation
}

/// What the allocation came to, given the outcome of the copy utility. Any
/// outcome but a clean exit is the one allocation failure.
pub fn allocation_result(outcome: Outcome) -> (r: Result<(), ProvisionError>)
    ensures
        match r {
            Ok(_) => outcome.succeeded(),
            Err(e) => !outcome.succeeded() && e == ProvisionError::VolumeAllocationFailed,
        },
{
    if outcome.is_success() {
        Ok(())
    } else {
        Err(ProvisionError::VolumeAllocationFailed)
    }
}

/// Writes the line that confirms the allocation of the backing file of
/// `megabytes` megabytes for `account`.
pub fn allocation_confirmed(account: &Account, megabytes: u64) -> (line: String)
    ensures
        line@ == allocated_line(megabytes, volume_path(account@.home_directory())),
{
    let mut line = String::from_str("Space created: ");
    line.append(decimal_string(megabytes).as_str());
    line.append("M (");
    line.append(backing_file(account).as_str());
    line.append(")");
    line
}

/// A storage volume that is allocated and formatted.
#[derive(Debug, PartialEq, Eq)]
pub struct Volume {
    logical_name: String,
    path: String,
    size_megabytes: u64,
}

/// A volume as plain values.
pub struct VolumeView {
    pub logical_name: Seq<char>,
    pub path: Seq<char>,
    pub size_megabytes: u64,
}

/// The volume of `megabytes` megabytes that belongs to the account with the
/// home directory `home_directory`.
pub open spec fn volume_of(home_directory: Seq<char>, megabytes: u64) -> VolumeView {
    VolumeView {
        logical_name: volume_name(),
        path: volume_path(home_directory),
        size_megabytes: megabytes,
    }
}

impl View for Volume {
    type V = VolumeView;

    closed spec fn view(&self) -> VolumeView {
        VolumeView {
            logical_name: self.logical_name@,
            path: self.path@,
            size_megabytes: self.size_megabytes,
        }
    }
}

impl Volume {
    /// What the formatting of the allocated backing file came to, given the
    /// outcome of the formatting utility: the volume where the utility exited
    /// cleanly, and otherwise the one format failure.
    pub fn from_outcome(account: &Account, megabytes: u64, outcome: Outcome) -> (r: Result<
        Volume,
        ProvisionError,
    >)
        ensures
            match r {
                Ok(volume) => outcome.succeeded() && volume@ == volume_of(
                    account@.home_directory(),
                    megabytes,
                ),
                Err(e) => !outcome.succeeded() && e == ProvisionError::VolumeFormatFailed,
            },
    {
        if outcome.is_success() {
            Ok(
                Volume {
                    logical_name: String::from_str("volume"),
                    path: backing_file(account),
                    size_megabytes: megabytes,
                },
            )
        } else {
            Err(ProvisionError::VolumeFormatFailed)
        }
    }

    /// The logical name of the volume.
    pub fn logical_name(&self) -> (name: &str)
        ensures
            name@ == self@.logical_name,
    {
        self.logical_name.as_str()
    }

    /// The path of the backing file.
    pub fn path(&self) -> (path: &str)
        ensures
            path@ == self@.path,
    {
        self.path.as_str()
    }

    /// The size of the volume, in megabytes.
    pub fn size_megabytes(&self) -> (megabytes: u64)
        ensures
            megabytes == self@.size_megabytes,
    {
        self.size_megabytes
    }

    /// The line that confirms the formatting of this volume.
    pub fn formatted_line(&self) -> (line: String)
        ensures
            line@ == formatted_line(self@.path),
    {
        let mut line = String::from_str("Space formatted: ext4 (");
        line.append(self.path.as_str());
        line.append(")");
        line
    }
}

} // verus!
