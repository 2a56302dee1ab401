//! The orchestrator: resolve, create the account, allocate the volume, format
//! it, report. It is a state machine. The caller runs the command that the
//! pipeline last handed out and feeds the outcome back; the pipeline answers
//! with the next command, with the finished result, or with the failure.
//!
//! The first failure ends the run. Nothing that an earlier stage has done is
//! undone: no answer of the pipeline ever asks for an account or a file to be
//! removed.

use vstd::prelude::*;
use crate::account::{created_line, creation_command, creation_invocation, failure_cause, Account, AccountView};
use crate::command::{Diagnostics, Invocation, InvocationView, Outcome};
use crate::error::ProvisionError;
use crate::resolver::{resolve, resolved_request, BaseSetting, ProvisionRequest, RequestView};
use crate::text::{decimal, decimal_string, lemma_join_strictly_inside, strictly_inside};
use crate::volume::{
    allocated_line,
    allocation_command,
    allocation_confirmed,
    allocation_invocation,
    allocation_result,
    format_command,
    format_invocation,
    formatted_line,
    volume_name,
    volume_of,
    volume_path,
    Volume,
    VolumeView,
};

verus! {

/// What a finished run has provisioned: the account, and the volume that
/// belongs to it. The volume's backing file always lies in the account's
/// home directory.
#[derive(Debug, PartialEq, Eq)]
pub struct ProvisionResult {
    account: Account,
    volume: Volume,
}

/// A result as plain values.
pub struct ResultView {
    pub account: AccountView,
    pub volume: VolumeView,
}

/// The result of provisioning `request`.
pub open spec fn result_of(request: RequestView) -> ResultView {
    ResultView {
        account: AccountView {
            username: request.username,
            base_directory: request.base_directory,
        },
        volume: volume_of(request.home_directory(), request.quota_megabytes),
    }
}

/// The final confirmation of a run.
pub open spec fn report(result: ResultView) -> Seq<char> {
    "User "@ + result.account.username + ", Volume "@ + result.volume.logical_name + ", Size "@
        + decimal(result.volume.size_megabytes as nat)
}

impl View for ProvisionResult {
    type V = ResultView;

    closed spec fn view(&self) -> ResultView {
        ResultView { account: self.account@, volume: self.volume@ }
    }
}

impl ProvisionResult {
    #[verifier::type_invariant]
    spec fn volume_is_owned(self) -> bool {
        self.volume@ == volume_of(self.account@.home_directory(), self.volume@.size_megabytes)
    }

    /// The account that was created.
    pub fn account(&self) -> (account: &Account)
        ensures
            account@ == self@.account,
    {
        &self.account
    }

    /// The volume that was created. It carries the fixed volume name, and its
    /// backing file lies strictly inside the home directory of the account.
    pub fn volume(&self) -> (volume: &Volume)
        ensures
            volume@ == self@.volume,
            volume@ == volume_of(self@.account.home_directory(), volume@.size_megabytes),
            strictly_inside(volume@.path, self@.account.home_directory()),
    {
        proof {
            use_type_invariant(self);
            reveal_strlit("volume");
            lemma_join_strictly_inside(self@.account.home_directory(), volume_name());
        }
        &self.volume
    }

    /// Writes the final confirmation: the username, the volume's name and
    /// the volume's size.
    pub fn report(&self) -> (text: String)
        ensures
            text@ == report(self@),
    {
        let mut text = String::from_str("User ");
        text.append(self.account.username());
        text.append(", Volume ");
        text.append(self.volume.logical_name());
        text.append(", Size ");
        text.append(decimal_string(self.volume.size_megabytes()).as_str());
        text
    }
}

/// The stage of a run: the command whose outcome the pipeline waits for.
#[derive(Clone, Copy, Debug, PartialEq, Eq, Structural)]
pub enum Stage {
    /// The user-creation utility is to run.
    CreatingAccount,
    /// The account exists; the copy utility is to allocate the backing file.
    Allocating,
    /// The backing file exists; the formatting utility is to format it.
    Formatting,
}

/// How far a run has come, with what it has in hand: the request before the
/// account exists, and afterwards the account and the size that the volume is
/// to have.
enum Progress {
    CreatingAccount { request: ProvisionRequest },
    Allocating { account: Account, megabytes: u64 },
    Formatting { account: Account, megabytes: u64 },
}

/// A run that waits for the outcome of a command.
pub struct Pipeline {
    progress: Progress,
    diagnostics: Diagnostics,
}

/// A waiting run as plain values.
pub struct PipelineView {
    pub stage: Stage,
    pub request: RequestView,
    pub diagnostics: Diagnostics,
}

impl PipelineView {
    /// The run for `request` before any command has run.
    pub open spec fn initial(request: RequestView, diagnostics: Diagnostics) -> PipelineView {
        PipelineView { stage: Stage::CreatingAccount, request, diagnostics }
    }

    /// The same run at another stage.
    pub open spec fn at(self, stage: Stage) -> PipelineView {
        PipelineView { stage, request: self.request, diagnostics: self.diagnostics }
    }

    /// The command whose outcome the run waits for. The user-creation
    /// utility always keeps its output; the other two follow the run's
    /// setting.
    pub open spec fn awaited(self) -> InvocationView {
        match self.stage {
            Stage::CreatingAccount => creation_command(
                self.request.username,
                self.request.base_directory,
            ),
            Stage::Allocating => allocation_command(
                volume_path(self.request.home_directory()),
                self.request.quota_megabytes,
                self.diagnostics,
            ),
            Stage::Formatting => format_command(
                volume_path(self.request.home_directory()),
                self.diagnostics,
            ),
        }
    }
}

/// The pipeline's answer to an outcome, as plain values.
pub enum StepView {
    /// The stage succeeded: `line` confirms it, and the run goes on as
    /// `pipeline`, which waits for `invocation`.
    Continue { line: Seq<char>, pipeline: PipelineView, invocation: InvocationView },
    /// The last stage succeeded: `line` confirms it, `report` is the final
    /// confirmation, and `result` is what was provisioned.
    Done { line: Seq<char>, report: Seq<char>, result: ResultView },
    /// The stage failed, and the run is over.
    Failed { error: ProvisionError },
}

/// The transition rule of the pipeline: what follows when the awaited
/// command ends with `outcome`.
pub open spec fn transition(pipeline: PipelineView, outcome: Outcome) -> StepView {
    let request = pipeline.request;
    let path = volume_path(request.home_directory());
    match pipeline.stage {
        Stage::CreatingAccount => match failure_cause(outcome) {
            Some(cause) => StepView::Failed {
                error: ProvisionError::AccountCreationFailed { cause },
            },
            None => StepView::Continue {
                line: created_line(request.username, request.base_directory),
                pipeline: pipeline.at(Stage::Allocating),
                invocation: pipeline.at(Stage::Allocating).awaited(),
            },
        },
        Stage::Allocating => if outcome.succeeded() {
            StepView::Continue {
                line: allocated_line(request.quota_megabytes, path),
                pipeline: pipeline.at(Stage::Formatting),
                invocation: pipeline.at(Stage::Formatting).awaited(),
            }
        } else {
            StepView::Failed { error: ProvisionError::VolumeAllocationFailed }
        },
        Stage::Formatting => if outcome.succeeded() {
            StepView::Done {
                line: formatted_line(path),
                report: report(result_of(request)),
                result: result_of(request),
            }
        } else {
            StepView::Failed { error: ProvisionError::VolumeFormatFailed }
        },
    }
}

/// The pipeline's answer to an outcome.
pub enum Step {
    /// The stage succeeded. Print `line`, run `invocation`, and feed its
    /// outcome to `pipeline`.
    Continue { line: String, pipeline: Pipeline, invocation: Invocation },
    /// The run is complete. Print `line`, then `report`.
    Done { line: String, report: String, result: ProvisionResult },
    /// The run has failed with `error`. There is nothing left to run.
    Failed { error: ProvisionError },
}

impl View for Step {
    type V = StepView;

    open spec fn view(&self) -> StepView {
        match *self {
            Step::Continue { line, pipeline, invocation } => StepView::Continue {
                line: line@,
                pipeline: pipeline@,
                invocation: invocation@,
            },
            Step::Done { line, report, result } => StepView::Done {
                line: line@,
                report: report@,
                result: result@,
            },
            Step::Failed { error } => StepView::Failed { error },
        }
    }
}

impl View for Pipeline {
    type V = PipelineView;

    closed spec fn view(&self) -> PipelineView {
        match self.progress {
            Progress::CreatingAccount { request } => PipelineView {
                stage: Stage::CreatingAccount,
                request: request@,
                diagnostics: self.diagnostics,
            },
            Progress::Allocating { account, megabytes } => PipelineView {
                stage: Stage::Allocating,
                request: RequestView {
                    username: account@.username,
                    base_directory: account@.base_directory,
                    quota_megabytes: megabytes,
                },
                diagnostics: self.diagnostics,
            },
            Progress::Formatting { account, megabytes } => PipelineView {
                stage: Stage::Formatting,
                request: RequestView {
                    username: account@.username,
                    base_directory: account@.base_directory,
                    quota_megabytes: megabytes,
                },
                diagnostics: self.diagnostics,
            },
        }
    }
}

impl Pipeline {
    /// Starts a run for a resolved request. Nothing has happened yet: the
    /// run waits for the user-creation command, which is handed out.
    pub fn start(request: ProvisionRequest, diagnostics: Diagnostics) -> (started: (
        Pipeline,
        Invocation,
    ))
        ensures
            started.0@ == PipelineView::initial(request@, diagnostics),
            started.1@ == started.0@.awaited(),
    {
        let invocation = creation_invocation(&request);
        (Pipeline { progress: Progress::CreatingAccount { request }, diagnostics }, invocation)
    }

    /// Resolves the configuration as supplied and starts the run. An empty
    /// username ends the run as invalid input before any command is handed
    /// out.
    pub fn begin(
        username: String,
        base: BaseSetting,
        quota: Option<u64>,
        diagnostics: Diagnostics,
    ) -> (begun: Result<(Pipeline, Invocation), ProvisionError>)
        ensures
            match begun {
                Ok(started) => username@.len() > 0 && started.0@ == PipelineView::initial(
                    resolved_request(username@, base, quota),
                    diagnostics,
                ) && started.1@ == started.0@.awaited(),
                Err(e) => username@.len() == 0 && e == ProvisionError::InvalidInput,
            },
    {
        match resolve(username, base, quota) {
            Ok(request) => Ok(Pipeline::start(request, diagnostics)),
            Err(e) => Err(e),
        }
    }

    /// The stage that the run is at.
    pub fn stage(&self) -> (stage: Stage)
        ensures
            stage == self@.stage,
    {
        match &self.progress {
            Progress::CreatingAccount { .. } => Stage::CreatingAccount,
            Progress::Allocating { .. } => Stage::Allocating,
            Progress::Formatting { .. } => Stage::Formatting,
        }
    }

    /// Takes the outcome of the awaited command and decides what follows,
    /// by the transition rule.
    pub fn advance(self, outcome: Outcome) -> (step: Step)
        ensures
            step@ == transition(self@, outcome),
    {
        let diagnostics = self.diagnostics;
        match self.progress {
            Progress::CreatingAccount { request } => {
                match Account::from_outcome(&request, outcome) {
                    Ok(account) => {
                        let megabytes = request.quota_megabytes();
                        let line = account.created_line();
                        let invocation = allocation_invocation(&account, megabytes, diagnostics);
                        let pipeline = Pipeline {
                            progress: Progress::Allocating { account, megabytes },
                            diagnostics,
                        };
                        Step::Continue { line, pipeline, invocation }
                    },
                    Err(error) => Step::Failed { error },
                }
            },
            Progress::Allocating { account, megabytes } => {
                match allocation_result(outcome) {
                    Ok(_) => {
                        let line = allocation_confirmed(&account, megabytes);
                        let invocation = format_invocation(&account, diagnostics);
                        let pipeline = Pipeline {
                            progress: Progress::Formatting { account, megabytes },
                            diagnostics,
                        };
                        Step::Continue { line, pipeline, invocation }
                    },
                    Err(error) => Step::Failed { error },
                }
            },
            Progress::Formatting { account, megabytes } => {
                match Volume::from_outcome(&account, megabytes, outcome) {
                    Ok(volume) => {
                        let line = volume.formatted_line();
                        let result = ProvisionResult { account, volume };
                        let report = result.report();
                        Step::Done { line, report, result }
                    },
                    Err(error) => Step::Failed { error },
                }
            },
        }
    }
}

} // verus!
