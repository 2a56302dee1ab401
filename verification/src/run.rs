//! Whole runs: what the pipeline does from its start, given the outcomes of
//! the commands in the order in which they are run.
//!
//! A run can be rehearsed without any process: the outcomes are supplied
//! beforehand, and the rehearsal tells which commands would be handed out,
//! which lines would be printed, and how the run would end.

use vstd::prelude::*;
use crate::account::{creation_command, failure_cause};
use crate::command::{Diagnostics, Invocation, InvocationView, Outcome};
use crate::error::ProvisionError;
use crate::pipeline::{
    result_of,
    transition,
    Pipeline,
    PipelineView,
    ProvisionResult,
    ResultView,
    Step,
    StepView,
};
use crate::resolver::{resolved_quota, resolved_request, BaseSetting, RequestView};
use crate::text::{lemma_join_strictly_inside, strictly_inside};
use crate::volume::{allocation_command, format_command, volume_name, volume_path};

verus! {

/// A run as plain values.
pub struct RunView {
    /// The commands that were handed out, in order.
    pub issued: Seq<InvocationView>,
    /// The lines that were printed, in order.
    pub lines: Seq<Seq<char>>,
    /// How the run ended, or `None` where it still waits for an outcome.
    pub end: Option<Result<ResultView, ProvisionError>>,
}

impl RunView {
    /// The run has ended, and it has provisioned the user.
    pub open spec fn succeeded(self) -> bool {
        self.end matches Some(Ok(_))
    }
}

/// What follows in the run of `pipeline` when its commands end with
/// `outcomes`, in that order: the commands that are handed out after the
/// awaited one, the lines that are printed, and the end. Each outcome answers
/// the command that is awaited when its turn comes; outcomes that are left
/// when the run has ended are not looked at.
pub open spec fn run_from(pipeline: PipelineView, outcomes: Seq<Outcome>) -> RunView
    decreases outcomes.len(),
{
    if outcomes.len() == 0 {
        RunView { issued: seq![], lines: seq![], end: None }
    } else {
        match transition(pipeline, outcomes[0]) {
            StepView::Continue { line, pipeline: next, invocation } => {
                let rest = run_from(next, outcomes.drop_first());
                RunView {
                    issued: seq![invocation] + rest.issued,
                    lines: seq![line] + rest.lines,
                    end: rest.end,
                }
            },
            StepView::Done { line, report, result } => RunView {
                issued: seq![],
                lines: seq![line, report],
                end: Some(Ok(result)),
            },
            StepView::Failed { error } => RunView {
                issued: seq![],
                lines: seq![],
                end: Some(Err(error)),
            },
        }
    }
}

/// The whole run for a configuration as supplied. With an empty username it
/// ends as invalid input before any command is handed out. Otherwise the
/// user-creation command is handed out first, and the run goes on from there.
pub open spec fn run_of(
    username: Seq<char>,
    base: BaseSetting,
    quota: Option<u64>,
    diagnostics: Diagnostics,
    outcomes: Seq<Outcome>,
) -> RunView {
    if username.len() == 0 {
        RunView { issued: seq![], lines: seq![], end: Some(Err(ProvisionError::InvalidInput)) }
    } else {
        let start = PipelineView::initial(resolved_request(username, base, quota), diagnostics);
        let rest = run_from(start, outcomes);
        RunView { issued: seq![start.awaited()] + rest.issued, lines: rest.lines, end: rest.end }
    }
}

/// The three commands of a complete run, in order.
pub open spec fn commands_of(request: RequestView, diagnostics: Diagnostics) -> Seq<
    InvocationView,
> {
    let path = volume_path(request.home_directory());
    seq![
        creation_command(request.username, request.base_directory),
        allocation_command(path, request.quota_megabytes, diagnostics),
        format_command(path, diagnostics),
    ]
}

/// A run succeeds exactly when the username is not empty and the three
/// commands all exit cleanly. It then yields the account with the username
/// and the resolved base directory, and a volume whose backing file lies
/// strictly inside that account's home directory and whose size is the
/// resolved quota: the quota that was given, or 1024.
pub proof fn lemma_successful_run(
    username: Seq<char>,
    base: BaseSetting,
    quota: Option<u64>,
    diagnostics: Diagnostics,
    outcomes: Seq<Outcome>,
)
    ensures
        run_of(username, base, quota, diagnostics, outcomes).succeeded() <==> (username.len() > 0
            && outcomes.len() >= 3 && outcomes[0].succeeded() && outcomes[1].succeeded()
            && outcomes[2].succeeded()),
        run_of(username, base, quota, diagnostics, outcomes).end matches Some(Ok(result)) ==> {
            &&& result == result_of(resolved_request(username, base, quota))
            &&& result.account.username == username
            &&& result.account.base_directory == base.resolved()
            &&& strictly_inside(result.volume.path, result.account.home_directory())
            &&& result.volume.size_megabytes == resolved_quota(quota)
            &&& quota is None ==> result.volume.size_megabytes == 1024
            &&& run_of(username, base, quota, diagnostics, outcomes).issued == commands_of(
                resolved_request(username, base, quota),
                diagnostics,
            )
        },
{
    reveal_with_fuel(run_from, 4);
    reveal_strlit("volume");
    let request = resolved_request(username, base, quota);
    lemma_join_strictly_inside(request.home_directory(), volume_name());
    let run = run_of(username, base, quota, diagnostics, outcomes);
    if run.succeeded() {
        assert(run.issued =~= commands_of(request, diagnostics));
    }
}

/// Where the user-creation utility does not exit cleanly, the run ends with
/// the account failure and its cause, and the user-creation command is the
/// only one that was handed out: the volume provisioner is never invoked.
pub proof fn lemma_account_failure_ends_run(
    username: Seq<char>,
    base: BaseSetting,
    quota: Option<u64>,
    diagnostics: Diagnostics,
    outcomes: Seq<Outcome>,
)
    requires
        username.len() > 0,
        outcomes.len() >= 1,
        !outcomes[0].succeeded(),
    ensures
        failure_cause(outcomes[0]) is Some,
        run_of(username, base, quota, diagnostics, outcomes).end == Some(
            Err::<ResultView, ProvisionError>(
                ProvisionError::AccountCreationFailed { cause: failure_cause(outcomes[0])->0 },
            ),
        ),
        run_of(username, base, quota, diagnostics, outcomes).issued == seq![
            creation_command(username, base.resolved()),
        ],
        run_of(username, base, quota, diagnostics, outcomes).lines == Seq::<Seq<char>>::empty(),
{
    reveal_with_fuel(run_from, 2);
    let run = run_of(username, base, quota, diagnostics, outcomes);
    assert(run.issued =~= seq![creation_command(username, base.resolved())]);
    assert(run.lines =~= Seq::<Seq<char>>::empty());
}

/// Where the account is created and the copy utility does not exit cleanly,
/// the run ends with the allocation failure, and the formatting command is
/// never handed out.
pub proof fn lemma_allocation_failure_ends_run(
    username: Seq<char>,
    base: BaseSetting,
    quota: Option<u64>,
    diagnostics: Diagnostics,
    outcomes: Seq<Outcome>,
)
    requires
        username.len() > 0,
        outcomes.len() >= 2,
        outcomes[0].succeeded(),
        !outcomes[1].succeeded(),
    ensures
        run_of(username, base, quota, diagnostics, outcomes).end == Some(
            Err::<ResultView, ProvisionError>(ProvisionError::VolumeAllocationFailed),
        ),
        run_of(username, base, quota, diagnostics, outcomes).issued == commands_of(
            resolved_request(username, base, quota),
            diagnostics,
        ).subrange(0, 2),
{
    reveal_with_fuel(run_from, 3);
    let run = run_of(username, base, quota, diagnostics, outcomes);
    assert(run.issued =~= commands_of(resolved_request(username, base, quota), diagnostics).subrange(
        0,
        2,
    ));
}

/// Where the backing file is allocated and the formatting utility does not
/// exit cleanly, the run ends with the format failure. The formatting
/// command is the last one that was handed out: nothing removes the
/// allocated file.
pub proof fn lemma_format_failure_ends_run(
    username: Seq<char>,
    base: BaseSetting,
    quota: Option<u64>,
    diagnostics: Diagnostics,
    outcomes: Seq<Outcome>,
)
    requires
        username.len() > 0,
        outcomes.len() >= 3,
        outcomes[0].succeeded(),
        outcomes[1].succeeded(),
        !outcomes[2].succeeded(),
    ensures
        run_of(username, base, quota, diagnostics, outcomes).end == Some(
            Err::<ResultView, ProvisionError>(ProvisionError::VolumeFormatFailed),
        ),
        run_of(username, base, quota, diagnostics, outcomes).issued == commands_of(
            resolved_request(username, base, quota),
            diagnostics,
        ),
{
    reveal_with_fuel(run_from, 4);
    let run = run_of(username, base, quota, diagnostics, outcomes);
    assert(run.issued =~= commands_of(resolved_request(username, base, quota), diagnostics));
}

/// Whatever the outcomes, the commands that a run hands out are the three
/// commands in their order, or the first ones of them. No other command is
/// ever handed out, so nothing that a run has created is ever removed.
pub proof fn lemma_run_issues_only_its_commands(
    username: Seq<char>,
    base: BaseSetting,
    quota: Option<u64>,
    diagnostics: Diagnostics,
    outcomes: Seq<Outcome>,
)
    ensures
        run_of(username, base, quota, diagnostics, outcomes).issued.is_prefix_of(
            commands_of(resolved_request(username, base, quota), diagnostics),
        ),
{
    reveal_with_fuel(run_from, 4);
    let commands = commands_of(resolved_request(username, base, quota), diagnostics);
    let run = run_of(username, base, quota, diagnostics, outcomes);
    if username.len() == 0 {
        assert(run.issued =~= commands.subrange(0, 0));
    } else if outcomes.len() == 0 || !outcomes[0].succeeded() {
        assert(run.issued =~= commands.subrange(0, 1));
    } else {
        let second = outcomes.drop_first();
        if second.len() == 0 || !second[0].succeeded() {
            assert(run.issued =~= commands.subrange(0, 2));
        } else {
            assert(run.issued =~= commands.subrange(0, 3));
        }
    }
}

/// The run that has handed out `issued` and printed `lines` so far, and
/// that goes on as `rest`.
spec fn follow(
    issued: Seq<InvocationView>,
    lines: Seq<Seq<char>>,
    rest: RunView,
) -> RunView {
    RunView { issued: issued + rest.issued, lines: lines + rest.lines, end: rest.end }
}

/// The end of a run as plain values.
pub open spec fn end_view(end: Option<Result<ProvisionResult, ProvisionError>>) -> Option<
    Result<ResultView, ProvisionError>,
> {
    match end {
        Some(Ok(result)) => Some(Ok(result@)),
        Some(Err(error)) => Some(Err(error)),
        None => None,
    }
}

/// The record of a rehearsed run.
#[derive(Debug, PartialEq, Eq)]
pub struct Run {
    /// The commands that were handed out, in order.
    pub issued: Vec<Invocation>,
    /// The lines that were printed, in order.
    pub lines: Vec<String>,
    /// How the run ended, or `None` where it still waits for an outcome.
    pub end: Option<Result<ProvisionResult, ProvisionError>>,
}

impl View for Run {
    type V = RunView;

    open spec fn view(&self) -> RunView {
        RunView {
            issued: self.issued.deep_view(),
            lines: self.lines.deep_view(),
            end: end_view(self.end),
        }
    }
}

/// Rehearses the whole run for a configuration as supplied, against
/// outcomes that are known beforehand. No command is run.
pub fn simulate(
    username: String,
    base: BaseSetting,
    quota: Option<u64>,
    diagnostics: Diagnostics,
    outcomes: &Vec<Outcome>,
) -> (run: Run)
    ensures
        run@ == run_of(username@, base, quota, diagnostics, outcomes@),
{
    let ghost expected = run_of(username@, base, quota, diagnostics, outcomes@);
    let mut issued: Vec<Invocation> = Vec::new();
    let mut lines: Vec<String> = Vec::new();
    let mut end: Option<Result<ProvisionResult, ProvisionError>> = None;
    let mut waiting: Option<Pipeline> = None;
    match Pipeline::begin(username, base, quota, diagnostics) {
        Ok((pipeline, invocation)) => {
            issued.push(invocation);
            waiting = Some(pipeline);
        },
        Err(error) => {
            end = Some(Err(error));
        },
    }
    proof {
        assert(outcomes@.skip(0) =~= outcomes@);
        assert(lines.deep_view() =~= Seq::<Seq<char>>::empty());
        if waiting is Some {
            let start = waiting->0@;
            assert(issued.deep_view() =~= seq![start.awaited()]);
            assert(expected.lines =~= lines.deep_view() + run_from(start, outcomes@).lines);
        } else {
            assert(issued.deep_view() =~= Seq::<InvocationView>::empty());
        }
    }
    let mut i: usize = 0;
    while i < outcomes.len() && waiting.is_some()
        invariant
            i <= outcomes.len(),
            waiting is Some <==> end is None,
            match waiting {
                Some(pipeline) => expected == follow(
                    issued.deep_view(),
                    lines.deep_view(),
                    run_from(pipeline@, outcomes@.skip(i as int)),
                ),
                None => expected == (RunView {
                    issued: issued.deep_view(),
                    lines: lines.deep_view(),
                    end: end_view(end),
                }),
            },
        decreases outcomes.len() - i,
    {
        assert(outcomes@.skip(i as int).drop_first() =~= outcomes@.skip(i + 1));
        let ghost issued_before = issued.deep_view();
        let ghost lines_before = lines.deep_view();
        let pipeline = waiting.take().unwrap();
        match pipeline.advance(outcomes[i]) {
            Step::Continue { line, pipeline: next, invocation } => {
                lines.push(line);
                issued.push(invocation);
                proof {
                    let rest = run_from(next@, outcomes@.skip(i + 1));
                    assert(lines.deep_view() =~= lines_before.push(line@));
                    assert(issued.deep_view() =~= issued_before.push(invocation@));
                    assert(expected.issued =~= issued.deep_view() + rest.issued);
                    assert(expected.lines =~= lines.deep_view() + rest.lines);
                }
                waiting = Some(next);
            },
            Step::Done { line, report, result } => {
                lines.push(line);
                lines.push(report);
                end = Some(Ok(result));
                proof {
                    assert(lines.deep_view() =~= lines_before.push(line@).push(report@));
                    assert(expected.issued =~= issued.deep_view());
                    assert(expected.lines =~= lines.deep_view());
                }
            },
            Step::Failed { error } => {
                end = Some(Err(error));
                proof {
                    assert(expected.issued =~= issued.deep_view());
                    assert(expected.lines =~= lines.deep_view());
                }
            },
        }
        i += 1;
    }
    Run { issued, lines, end }
}

} // verus!
