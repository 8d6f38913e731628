use just_self::error::Error;
use just_self::install::{advance, first_step, plan_for_name, plan_install, Progress, Step};

fn run(stale_checkout: bool, succeeds: &dyn Fn(Step) -> bool) -> (Vec<Step>, Result<(), Error>) {
    let mut done = Vec::new();
    let mut step = first_step(stale_checkout);
    loop {
        done.push(step);
        match advance(step, succeeds(step)) {
            Progress::Continue(next) => step = next,
            Progress::Installed => return (done, Ok(())),
            Progress::Failed(error) => return (done, Err(error)),
        }
    }
}

#[test]
fn plan_for_widget() {
    let plan = plan_for_name("widget", "");
    assert_eq!(plan.name, "widget");
    assert_eq!(plan.checkout, "widget");
    assert_eq!(plan.manifest, vec!["widget".to_string(), "Cargo.toml".to_string()]);
    assert_eq!(
        plan.artifact,
        vec!["widget".to_string(), "target".to_string(), "release".to_string(), "widget".to_string()]
    );
    assert_eq!(plan.destination, "just-widget");
}

#[test]
fn plan_with_platform_suffix() {
    let plan = plan_for_name("widget", ".exe");
    assert_eq!(plan.artifact[3], "widget.exe");
    assert_eq!(plan.destination, "just-widget.exe");
    assert_eq!(plan.checkout, "widget");
}

#[test]
fn plan_keeps_a_prefix_that_the_repository_has() {
    let plan = plan_for_name("just-widget", "");
    assert_eq!(plan.checkout, "just-widget");
    assert_eq!(plan.artifact[3], "just-widget");
    assert_eq!(plan.destination, "just-widget");
}

#[test]
fn plan_from_url() {
    let plan = plan_install("https://github.com/acme/widget", ".exe").unwrap();
    assert_eq!(plan.name, "widget");
    assert_eq!(plan.destination, "just-widget.exe");
}

#[test]
fn plan_from_bad_url_fails_before_any_step() {
    assert_eq!(plan_install("nonsense", "").unwrap_err(), Error::MalformedUrl);
    assert_eq!(plan_install("https://gitlab.com/acme/widget", "").unwrap_err(), Error::UnsupportedHost);
    assert_eq!(plan_install("https://github.com/acme", "").unwrap_err(), Error::MissingRepositoryName);
}

#[test]
fn steps_of_a_fresh_installation() {
    let (done, result) = run(false, &|_| true);
    assert_eq!(done, vec![Step::Clone, Step::Build, Step::CopyArtifact, Step::RemoveCheckout]);
    assert_eq!(result, Ok(()));
}

#[test]
fn scenario_stale_checkout_is_removed_before_cloning() {
    assert_eq!(first_step(true), Step::RemoveStaleCheckout);
    assert_eq!(advance(Step::RemoveStaleCheckout, true), Progress::Continue(Step::Clone));
    let (done, result) = run(true, &|_| true);
    assert_eq!(
        done,
        vec![
            Step::RemoveStaleCheckout,
            Step::Clone,
            Step::Build,
            Step::CopyArtifact,
            Step::RemoveCheckout
        ]
    );
    assert_eq!(result, Ok(()));
    assert_eq!(done[1..], run(false, &|_| true).0[..]);
}

#[test]
fn stale_checkout_that_cannot_be_removed_ends_the_installation() {
    let (done, result) = run(true, &|step| step != Step::RemoveStaleCheckout);
    assert_eq!(done, vec![Step::RemoveStaleCheckout]);
    assert_eq!(result, Err(Error::IoFailure));
}

#[test]
fn scenario_failed_cleanup_fails_the_installation() {
    assert_eq!(advance(Step::CopyArtifact, true), Progress::Continue(Step::RemoveCheckout));
    assert_eq!(advance(Step::RemoveCheckout, false), Progress::Failed(Error::IoFailure));
    let (done, result) = run(false, &|step| step != Step::RemoveCheckout);
    assert_eq!(done.last(), Some(&Step::RemoveCheckout));
    assert!(done.contains(&Step::CopyArtifact));
    assert_eq!(result, Err(Error::IoFailure));
}

#[test]
fn failed_clone_is_a_build_failure_and_nothing_is_cleaned() {
    let (done, result) = run(false, &|step| step != Step::Clone);
    assert_eq!(done, vec![Step::Clone]);
    assert_eq!(result, Err(Error::BuildFailure));
}

#[test]
fn failed_build_is_a_build_failure_and_nothing_is_cleaned() {
    let (done, result) = run(false, &|step| step != Step::Build);
    assert_eq!(done, vec![Step::Clone, Step::Build]);
    assert_eq!(result, Err(Error::BuildFailure));
}

#[test]
fn failed_copy_is_an_io_failure() {
    let (done, result) = run(false, &|step| step != Step::CopyArtifact);
    assert_eq!(done, vec![Step::Clone, Step::Build, Step::CopyArtifact]);
    assert_eq!(result, Err(Error::IoFailure));
}

#[test]
fn every_step_advances() {
    assert_eq!(first_step(false), Step::Clone);
    assert_eq!(advance(Step::Clone, true), Progress::Continue(Step::Build));
    assert_eq!(advance(Step::Build, true), Progress::Continue(Step::CopyArtifact));
    assert_eq!(advance(Step::RemoveCheckout, true), Progress::Installed);
    assert_eq!(advance(Step::RemoveStaleCheckout, false), Progress::Failed(Error::IoFailure));
    assert_eq!(advance(Step::Clone, false), Progress::Failed(Error::BuildFailure));
    assert_eq!(advance(Step::Build, false), Progress::Failed(Error::BuildFailure));
    assert_eq!(advance(Step::CopyArtifact, false), Progress::Failed(Error::IoFailure));
}
