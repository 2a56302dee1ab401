use mkwebuser::command::{Diagnostics, Outcome};
use mkwebuser::error::{AccountCause, ProvisionError};
use mkwebuser::resolver::BaseSetting;
use mkwebuser::run::simulate;

const OK: Outcome = Outcome::Exited(0);

fn programs(run: &mkwebuser::run::Run) -> Vec<String> {
    run.issued.iter().map(|invocation| invocation.program.clone()).collect()
}

#[test]
fn rehearsal_of_a_complete_run() {
    let base = BaseSetting::Given("/srv/users".to_string());
    let run = simulate("alice".to_string(), base, Some(512), Diagnostics::Suppressed, &vec![OK, OK, OK]);
    assert_eq!(programs(&run), vec!["useradd", "dd", "mkfs.ext4"]);
    assert_eq!(run.issued[1].args[2], "bs=512M");
    assert_eq!(run.issued[1].args[3], "count=1");
    assert_eq!(run.issued[2].args, vec!["/srv/users/alice/volume"]);
    assert_eq!(
        run.lines,
        vec![
            "User created: alice (/srv/users/alice)",
            "Space created: 512M (/srv/users/alice/volume)",
            "Space formatted: ext4 (/srv/users/alice/volume)",
            "User alice, Volume volume, Size 512",
        ]
    );
    let result = run.end.unwrap().unwrap();
    assert_eq!(result.account().home_directory(), "/srv/users/alice");
    assert_eq!(result.volume().path(), "/srv/users/alice/volume");
    assert_eq!(result.volume().size_megabytes(), 512);
}

#[test]
fn rehearsal_waits_where_outcomes_run_out() {
    let none = simulate("bob".to_string(), BaseSetting::Unset, None, Diagnostics::Suppressed, &vec![]);
    assert_eq!(programs(&none), vec!["useradd"]);
    assert!(none.lines.is_empty());
    assert_eq!(none.end, None);

    let one = simulate("bob".to_string(), BaseSetting::Unset, None, Diagnostics::Suppressed, &vec![OK]);
    assert_eq!(programs(&one), vec!["useradd", "dd"]);
    assert_eq!(one.lines, vec!["User created: bob (/home/bob)"]);
    assert_eq!(one.end, None);

    let two = simulate("bob".to_string(), BaseSetting::Unset, None, Diagnostics::Suppressed, &vec![OK, OK]);
    assert_eq!(programs(&two), vec!["useradd", "dd", "mkfs.ext4"]);
    assert_eq!(two.end, None);
}

#[test]
fn rehearsal_stops_at_the_first_failure() {
    let outcomes = vec![Outcome::Exited(9), OK, OK];
    let run = simulate("bob".to_string(), BaseSetting::Unset, None, Diagnostics::Suppressed, &outcomes);
    assert_eq!(programs(&run), vec!["useradd"]);
    assert_eq!(
        run.end,
        Some(Err(ProvisionError::AccountCreationFailed { cause: AccountCause::UsernameInUse }))
    );

    let outcomes = vec![OK, Outcome::Signaled, OK];
    let run = simulate("bob".to_string(), BaseSetting::Unset, None, Diagnostics::Suppressed, &outcomes);
    assert_eq!(programs(&run), vec!["useradd", "dd"]);
    assert_eq!(run.end, Some(Err(ProvisionError::VolumeAllocationFailed)));

    let outcomes = vec![OK, OK, Outcome::Unobserved];
    let run = simulate("bob".to_string(), BaseSetting::Unset, None, Diagnostics::Suppressed, &outcomes);
    assert_eq!(programs(&run), vec!["useradd", "dd", "mkfs.ext4"]);
    assert_eq!(run.end, Some(Err(ProvisionError::VolumeFormatFailed)));
}

#[test]
fn rehearsal_ignores_outcomes_after_the_end() {
    let outcomes = vec![OK, OK, OK, Outcome::Exited(1), Outcome::Signaled];
    let run = simulate("bob".to_string(), BaseSetting::Unset, None, Diagnostics::Suppressed, &outcomes);
    assert_eq!(run.issued.len(), 3);
    assert_eq!(run.lines.len(), 4);
    assert!(matches!(run.end, Some(Ok(_))));
}

#[test]
fn rehearsal_with_an_empty_username_hands_out_nothing() {
    let run = simulate(String::new(), BaseSetting::Unset, None, Diagnostics::Suppressed, &vec![OK, OK, OK]);
    assert!(run.issued.is_empty());
    assert!(run.lines.is_empty());
    assert_eq!(run.end, Some(Err(ProvisionError::InvalidInput)));
}
