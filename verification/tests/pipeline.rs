use mkwebuser::command::{Diagnostics, Invocation, Outcome};
use mkwebuser::error::{AccountCause, ProvisionError};
use mkwebuser::pipeline::{Pipeline, ProvisionResult, Stage, Step};
use mkwebuser::resolver::{resolve, BaseSetting};

/// Stands in for the external utilities: it records each command that it is
/// asked to run and answers with the outcome that the script holds for the
/// command's program.
struct Stub {
    useradd: Outcome,
    dd: Outcome,
    mkfs: Outcome,
    calls: Vec<Invocation>,
}

impl Stub {
    fn new(useradd: Outcome, dd: Outcome, mkfs: Outcome) -> Stub {
        Stub { useradd, dd, mkfs, calls: Vec::new() }
    }

    fn run(&mut self, invocation: Invocation) -> Outcome {
        let outcome = match invocation.program.as_str() {
            "useradd" => self.useradd,
            "dd" => self.dd,
            "mkfs.ext4" => self.mkfs,
            other => panic!("unexpected program {}", other),
        };
        self.calls.push(invocation);
        outcome
    }

    fn count(&self, program: &str) -> usize {
        self.calls.iter().filter(|call| call.program == program).count()
    }
}

struct Finished {
    lines: Vec<String>,
    end: Result<ProvisionResult, ProvisionError>,
}

fn provision(
    stub: &mut Stub,
    username: &str,
    base: BaseSetting,
    quota: Option<u64>,
    diagnostics: Diagnostics,
) -> Finished {
    let mut lines = Vec::new();
    let (mut pipeline, mut invocation) =
        match Pipeline::begin(username.to_string(), base, quota, diagnostics) {
            Ok(started) => started,
            Err(error) => return Finished { lines, end: Err(error) },
        };
    loop {
        let outcome = stub.run(invocation);
        match pipeline.advance(outcome) {
            Step::Continue { line, pipeline: next, invocation: awaited } => {
                lines.push(line);
                pipeline = next;
                invocation = awaited;
            }
            Step::Done { line, report, result } => {
                lines.push(line);
                lines.push(report);
                return Finished { lines, end: Ok(result) };
            }
            Step::Failed { error } => return Finished { lines, end: Err(error) },
        }
    }
}

const OK: Outcome = Outcome::Exited(0);

#[test]
fn end_to_end_with_explicit_base_and_quota() {
    let mut stub = Stub::new(OK, OK, OK);
    let base = BaseSetting::Given("/srv/users".to_string());
    let finished = provision(&mut stub, "alice", base, Some(512), Diagnostics::Suppressed);
    let result = finished.end.unwrap();

    assert_eq!(result.account().username(), "alice");
    assert_eq!(result.account().base_directory(), "/srv/users");
    assert_eq!(result.account().home_directory(), "/srv/users/alice");
    assert_eq!(result.volume().logical_name(), "volume");
    assert_eq!(result.volume().path(), "/srv/users/alice/volume");
    assert_eq!(result.volume().size_megabytes(), 512);

    assert_eq!(stub.calls.len(), 3);
    assert_eq!(stub.calls[0].program, "useradd");
    assert_eq!(stub.calls[1].program, "dd");
    assert_eq!(
        stub.calls[1].args,
        vec!["if=/dev/zero", "of=/srv/users/alice/volume", "bs=512M", "count=1"]
    );
    assert_eq!(stub.calls[2].program, "mkfs.ext4");
    assert_eq!(stub.calls[2].args, vec!["/srv/users/alice/volume"]);

    assert_eq!(result.report(), "User alice, Volume volume, Size 512");
    assert_eq!(
        finished.lines,
        vec![
            "User created: alice (/srv/users/alice)",
            "Space created: 512M (/srv/users/alice/volume)",
            "Space formatted: ext4 (/srv/users/alice/volume)",
            "User alice, Volume volume, Size 512",
        ]
    );
}

#[test]
fn end_to_end_with_defaults() {
    let mut stub = Stub::new(OK, OK, OK);
    let finished = provision(&mut stub, "bob", BaseSetting::Unset, None, Diagnostics::Suppressed);
    let result = finished.end.unwrap();

    assert_eq!(result.account().base_directory(), "/home");
    assert_eq!(result.account().home_directory(), "/home/bob");
    assert_eq!(result.volume().path(), "/home/bob/volume");
    assert_eq!(result.volume().size_megabytes(), 1024);
    assert_eq!(stub.calls[0].args[1], "/home");
    assert_eq!(stub.calls[1].args[2], "bs=1024M");
    assert_eq!(result.report(), "User bob, Volume volume, Size 1024");
}

#[test]
fn successful_run_keeps_volume_inside_home_and_size_equal_to_quota() {
    let cases: [(&str, Option<&str>, Option<u64>); 5] = [
        ("alice", Some("/srv/users"), Some(512)),
        ("bob", None, None),
        ("carol", Some("/"), Some(1)),
        ("d", Some(""), Some(u64::MAX)),
        ("eve", Some("/data/web users"), None),
    ];
    for (username, base, quota) in cases {
        let setting = match base {
            Some(path) => BaseSetting::Given(path.to_string()),
            None => BaseSetting::Unset,
        };
        let mut stub = Stub::new(OK, OK, OK);
        let finished = provision(&mut stub, username, setting, quota, Diagnostics::Suppressed);
        let result = finished.end.unwrap();
        let home = result.account().home_directory().to_string();
        let path = result.volume().path().to_string();
        assert_eq!(home, format!("{}/{}", base.unwrap_or("/home"), username));
        assert!(path.starts_with(&format!("{}/", home)));
        assert!(path.len() > home.len() + 1);
        assert_eq!(result.volume().size_megabytes(), quota.unwrap_or(1024));
    }
}

#[test]
fn account_failure_never_invokes_the_volume_provisioner() {
    let failures = [
        (Outcome::Exited(9), AccountCause::UsernameInUse),
        (Outcome::Exited(1), AccountCause::PasswordFileUpdate),
        (Outcome::Exited(200), AccountCause::Unknown),
        (Outcome::Signaled, AccountCause::Signaled),
        (Outcome::Unobserved, AccountCause::Unobserved),
    ];
    for (outcome, cause) in failures {
        let mut stub = Stub::new(outcome, OK, OK);
        let finished = provision(&mut stub, "alice", BaseSetting::Unset, None, Diagnostics::Suppressed);
        assert_eq!(finished.end, Err(ProvisionError::AccountCreationFailed { cause }));
        assert_eq!(stub.count("useradd"), 1);
        assert_eq!(stub.count("dd"), 0);
        assert_eq!(stub.count("mkfs.ext4"), 0);
        assert!(finished.lines.is_empty());
    }
}

#[test]
fn allocation_failure_never_attempts_the_format() {
    for outcome in [Outcome::Exited(1), Outcome::Signaled, Outcome::Unobserved] {
        let mut stub = Stub::new(OK, outcome, OK);
        let finished = provision(&mut stub, "alice", BaseSetting::Unset, None, Diagnostics::Suppressed);
        assert_eq!(finished.end, Err(ProvisionError::VolumeAllocationFailed));
        assert_eq!(stub.count("useradd"), 1);
        assert_eq!(stub.count("dd"), 1);
        assert_eq!(stub.count("mkfs.ext4"), 0);
        assert_eq!(finished.lines, vec!["User created: alice (/home/alice)"]);
    }
}

#[test]
fn format_failure_is_reported_and_nothing_is_removed() {
    for outcome in [Outcome::Exited(1), Outcome::Signaled, Outcome::Unobserved] {
        let mut stub = Stub::new(OK, OK, outcome);
        let finished = provision(&mut stub, "alice", BaseSetting::Unset, None, Diagnostics::Suppressed);
        assert_eq!(finished.end, Err(ProvisionError::VolumeFormatFailed));
        assert_eq!(stub.calls.len(), 3);
        assert_eq!(stub.calls[0].program, "useradd");
        assert_eq!(stub.calls[1].program, "dd");
        assert_eq!(stub.calls[2].program, "mkfs.ext4");
        assert_eq!(
            finished.lines,
            vec![
                "User created: alice (/home/alice)",
                "Space created: 1024M (/home/alice/volume)",
            ]
        );
    }
}

#[test]
fn empty_username_ends_the_run_before_any_command() {
    let mut stub = Stub::new(OK, OK, OK);
    let finished = provision(&mut stub, "", BaseSetting::Unset, None, Diagnostics::Suppressed);
    assert_eq!(finished.end, Err(ProvisionError::InvalidInput));
    assert!(stub.calls.is_empty());
    assert!(finished.lines.is_empty());
}

#[test]
fn stages_follow_one_another() {
    let request = resolve("alice".to_string(), BaseSetting::Unset, Some(7)).unwrap();
    let (pipeline, first) = Pipeline::start(request, Diagnostics::Suppressed);
    assert_eq!(pipeline.stage(), Stage::CreatingAccount);
    assert_eq!(first.program, "useradd");
    let pipeline = match pipeline.advance(OK) {
        Step::Continue { pipeline, invocation, .. } => {
            assert_eq!(invocation.program, "dd");
            pipeline
        }
        _ => panic!("the account stage did not continue"),
    };
    assert_eq!(pipeline.stage(), Stage::Allocating);
    let pipeline = match pipeline.advance(OK) {
        Step::Continue { pipeline, invocation, .. } => {
            assert_eq!(invocation.program, "mkfs.ext4");
            pipeline
        }
        _ => panic!("the allocation stage did not continue"),
    };
    assert_eq!(pipeline.stage(), Stage::Formatting);
    assert!(matches!(pipeline.advance(OK), Step::Done { .. }));
}

#[test]
fn useradd_keeps_its_output_and_the_others_follow_the_setting() {
    for diagnostics in [Diagnostics::Suppressed, Diagnostics::Surfaced] {
        let mut stub = Stub::new(OK, OK, OK);
        let finished = provision(&mut stub, "alice", BaseSetting::Unset, None, diagnostics);
        assert!(finished.end.is_ok());
        assert_eq!(stub.calls[0].diagnostics, Diagnostics::Surfaced);
        assert_eq!(stub.calls[1].diagnostics, diagnostics);
        assert_eq!(stub.calls[2].diagnostics, diagnostics);
    }
}
