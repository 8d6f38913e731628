//! Installing an extension: what is built where, and in which order.
//!
//! The work itself (cloning, building, copying, deleting) is done by the
//! caller. This module says where each thing lies, which step comes first,
//! and what follows each step once it has succeeded or failed.

use crate::error::Error;
use crate::naming::{managed_filename, to_managed_filename};
use crate::source::{derive_name, derived_name, parsed_url};
use crate::text::text_views;
use vstd::prelude::*;
use vstd::string::*;

verus! {

/// The manifest of the project inside the checkout.
pub const MANIFEST_FILE: &'static str = "Cargo.toml";

/// The directory of the checkout that holds the build's output.
pub const TARGET_DIR: &'static str = "target";

/// The directory beneath `TARGET_DIR` that holds an optimized build.
pub const RELEASE_DIR: &'static str = "release";

/// Where the things of one installation lie. Paths are lists of components,
/// relative to the current directory; the destination is a file name inside
/// the store.
#[derive(Debug)]
pub struct InstallPlan {
    /// The name of the extension.
    pub name: String,
    /// The directory into which the repository is cloned.
    pub checkout: String,
    /// The manifest handed to the build tool.
    pub manifest: Vec<String>,
    /// The executable that the build leaves behind.
    pub artifact: Vec<String>,
    /// The file name of the extension inside the store.
    pub destination: String,
}

/// A plan as mathematical values.
pub struct InstallPlanView {
    pub name: Seq<char>,
    pub checkout: Seq<char>,
    pub manifest: Seq<Seq<char>>,
    pub artifact: Seq<Seq<char>>,
    pub destination: Seq<char>,
}

impl View for InstallPlan {
    type V = InstallPlanView;

    open spec fn view(&self) -> InstallPlanView {
        InstallPlanView {
            name: self.name@,
            checkout: self.checkout@,
            manifest: text_views(self.manifest@),
            artifact: text_views(self.artifact@),
            destination: self.destination@,
        }
    }
}

/// The plan for the extension `name`: the checkout is named after it, the
/// build leaves `target/release/<name><suffix>` inside the checkout, and the
/// store receives the managed file name.
pub open spec fn plan_for(name: Seq<char>, suffix: Seq<char>) -> InstallPlanView {
    InstallPlanView {
        name,
        checkout: name,
        manifest: seq![name, MANIFEST_FILE@],
        artifact: seq![name, TARGET_DIR@, RELEASE_DIR@, name + suffix],
        destination: managed_filename(name, suffix),
    }
}

/// The plan that a URL gives, from what the parser made of it.
pub open spec fn planned(parsed: Option<crate::source::UrlPartsView>, suffix: Seq<char>) -> Result<
    InstallPlanView,
    Error,
> {
    match derived_name(parsed) {
        Ok(name) => Ok(plan_for(name, suffix)),
        Err(error) => Err(error),
    }
}

/// The plan for installing the extension `name`.
pub fn plan_for_name(name: &str, suffix: &str) -> (plan: InstallPlan)
    ensures
        plan@ == plan_for(name@, suffix@),
{
    let mut manifest: Vec<String> = Vec::new();
    manifest.push(name.to_owned());
    manifest.push(MANIFEST_FILE.to_owned());
    let mut executable = name.to_owned();
    executable.append(suffix);
    let mut artifact: Vec<String> = Vec::new();
    artifact.push(name.to_owned());
    artifact.push(TARGET_DIR.to_owned());
    artifact.push(RELEASE_DIR.to_owned());
    artifact.push(executable);
    let plan = InstallPlan {
        name: name.to_owned(),
        checkout: name.to_owned(),
        manifest,
        artifact,
        destination: to_managed_filename(name, suffix),
    };
    assert(plan@.manifest =~= plan_for(name@, suffix@).manifest);
    assert(plan@.artifact =~= plan_for(name@, suffix@).artifact);
    plan
}

/// The plan for installing from `url`, or the reason why the URL names no
/// extension. Nothing has been touched when this fails.
pub fn plan_install(url: &str, suffix: &str) -> (plan: Result<InstallPlan, Error>)
    ensures
        match plan {
            Ok(p) => planned(parsed_url(url@), suffix@) == Ok::<InstallPlanView, Error>(p@),
            Err(e) => planned(parsed_url(url@), suffix@) == Err::<InstallPlanView, Error>(e),
        },
{
    match derive_name(url) {
        Ok(name) => Ok(plan_for_name(name.as_str(), suffix)),
        Err(error) => Err(error),
    }
}

/// One piece of work of an installation.
#[derive(Clone, Copy, Debug, PartialEq, Eq, Structural)]
pub enum Step {
    /// Delete the checkout that an earlier, failed installation left behind.
    RemoveStaleCheckout,
    /// Clone the repository into the checkout.
    Clone,
    /// Build the project in the checkout, optimized.
    Build,
    /// Copy the built executable into the store.
    CopyArtifact,
    /// Delete the checkout.
    RemoveCheckout,
}

/// Where an installation stands after a step.
#[derive(Clone, Copy, Debug, PartialEq, Eq, Structural)]
pub enum Progress {
    /// This step is to be done next.
    Continue(Step),
    /// All is done: the extension is installed.
    Installed,
    /// The installation has failed.
    Failed(Error),
}

impl Step {
    /// The step that follows this one once it has succeeded, if any.
    pub open spec fn successor(self) -> Option<Step> {
        match self {
            Step::RemoveStaleCheckout => Some(Step::Clone),
            Step::Clone => Some(Step::Build),
            Step::Build => Some(Step::CopyArtifact),
            Step::CopyArtifact => Some(Step::RemoveCheckout),
            Step::RemoveCheckout => None,
        }
    }

    /// The failure that the installation ends with where this step fails:
    /// `BuildFailure` for the two outside tools, `IoFailure` for the work on
    /// files.
    pub open spec fn failure(self) -> Error {
        match self {
            Step::Clone | Step::Build => Error::BuildFailure,
            Step::RemoveStaleCheckout | Step::CopyArtifact | Step::RemoveCheckout => {
                Error::IoFailure
            },
        }
    }

    /// How many steps follow this one at most.
    pub open spec fn remaining(self) -> nat {
        match self {
            Step::RemoveStaleCheckout => 4,
            Step::Clone => 3,
            Step::Build => 2,
            Step::CopyArtifact => 1,
            Step::RemoveCheckout => 0,
        }
    }
}

/// The first step: a checkout left by an earlier run is deleted before
/// anything is cloned.
pub open spec fn initial_step(stale_checkout: bool) -> Step {
    if stale_checkout {
        Step::RemoveStaleCheckout
    } else {
        Step::Clone
    }
}

/// Where the installation stands once `step` has succeeded or failed. A
/// failed step ends it, with nothing undone; the last step's success ends
/// it well.
pub open spec fn progress_after(step: Step, succeeded: bool) -> Progress {
    if !succeeded {
        Progress::Failed(step.failure())
    } else {
        match step.successor() {
            Some(next) => Progress::Continue(next),
            None => Progress::Installed,
        }
    }
}

/// The first step of an installation, given whether the checkout directory
/// already exists.
pub fn first_step(stale_checkout: bool) -> (step: Step)
    ensures
        step == initial_step(stale_checkout),
{
    if stale_checkout {
        Step::RemoveStaleCheckout
    } else {
        Step::Clone
    }
}

/// Where the installation stands once `step` has succeeded or failed.
pub fn advance(step: Step, succeeded: bool) -> (progress: Progress)
    ensures
        progress == progress_after(step, succeeded),
{
    if !succeeded {
        let error = match step {
            Step::Clone | Step::Build => Error::BuildFailure,
            Step::RemoveStaleCheckout | Step::CopyArtifact | Step::RemoveCheckout => {
                Error::IoFailure
            },
        };
        return Progress::Failed(error);
    }
    match step {
        Step::RemoveStaleCheckout => Progress::Continue(Step::Clone),
        Step::Clone => Progress::Continue(Step::Build),
        Step::Build => Progress::Continue(Step::CopyArtifact),
        Step::CopyArtifact => Progress::Continue(Step::RemoveCheckout),
        Step::RemoveCheckout => Progress::Installed,
    }
}

/// How an installation ends that starts with `step`, where `succeeds` says of
/// each step whether it succeeds when it is done.
pub open spec fn outcome_from(step: Step, succeeds: spec_fn(Step) -> bool) -> Result<(), Error>
    decreases step.remaining(),
{
    match progress_after(step, succeeds(step)) {
        Progress::Continue(next) => outcome_from(next, succeeds),
        Progress::Installed => Ok(()),
        Progress::Failed(error) => Err(error),
    }
}

/// Each step leads to one with fewer steps behind it: an installation is
/// over after five steps at most.
pub proof fn lemma_steps_run_down(step: Step, succeeded: bool)
    ensures
        match progress_after(step, succeeded) {
            Progress::Continue(next) => next.remaining() < step.remaining(),
            Progress::Installed => succeeded && step == Step::RemoveCheckout,
            Progress::Failed(error) => !succeeded && error == step.failure(),
        },
{
}

/// All or nothing: an installation ends well if and only if every step from
/// the first one on succeeds.
pub proof fn lemma_installed_iff_all_steps_succeed(step: Step, succeeds: spec_fn(Step) -> bool)
    ensures
        outcome_from(step, succeeds) is Ok <==> forall|later: Step|
            later.remaining() <= step.remaining() ==> #[trigger] succeeds(later),
    decreases step.remaining(),
{
    if succeeds(step) {
        match step.successor() {
            Some(next) => {
                lemma_installed_iff_all_steps_succeed(next, succeeds);
                assert forall|later: Step| later.remaining() <= step.remaining() implies (later
                    == step || later.remaining() <= next.remaining()) by {}
            },
            None => {
                assert forall|later: Step| later.remaining() <= step.remaining() implies later
                    == step by {}
            },
        }
    }
}

/// An installation fails with the failure of the first step that fails, and
/// no step is done after it.
pub proof fn lemma_first_failure_decides(
    step: Step,
    failing: Step,
    succeeds: spec_fn(Step) -> bool,
)
    requires
        failing.remaining() <= step.remaining(),
        !succeeds(failing),
        forall|earlier: Step|
            failing.remaining() < earlier.remaining() <= step.remaining() ==> #[trigger] succeeds(
                earlier,
            ),
    ensures
        outcome_from(step, succeeds) == Err::<(), Error>(failing.failure()),
    decreases step.remaining(),
{
    if step != failing {
        assert(succeeds(step));
        lemma_first_failure_decides(step.successor().unwrap(), failing, succeeds);
    }
}

/// Where the checkout cannot be deleted after the copy, the installation has
/// failed, although the extension is in the store by then.
pub proof fn lemma_failed_cleanup_fails_installation(
    stale_checkout: bool,
    succeeds: spec_fn(Step) -> bool,
)
    requires
        !succeeds(Step::RemoveCheckout),
    ensures
        outcome_from(initial_step(stale_checkout), succeeds) is Err,
        (forall|step: Step| step != Step::RemoveCheckout ==> #[trigger] succeeds(step))
            ==> outcome_from(initial_step(stale_checkout), succeeds) == Err::<(), Error>(
            Error::IoFailure,
        ),
{
    lemma_installed_iff_all_steps_succeed(initial_step(stale_checkout), succeeds);
    if forall|step: Step| step != Step::RemoveCheckout ==> #[trigger] succeeds(step) {
        lemma_first_failure_decides(initial_step(stale_checkout), Step::RemoveCheckout, succeeds);
    }
}

/// A checkout left by an earlier run is deleted before anything is cloned:
/// where that fails, the installation ends with `IoFailure` and nothing is
/// cloned; where it succeeds, the installation goes on as if the checkout
/// had not been there.
pub proof fn lemma_stale_checkout_goes_first(succeeds: spec_fn(Step) -> bool)
    ensures
        initial_step(true) == Step::RemoveStaleCheckout,
        !succeeds(Step::RemoveStaleCheckout) ==> outcome_from(initial_step(true), succeeds)
            == Err::<(), Error>(Error::IoFailure),
        succeeds(Step::RemoveStaleCheckout) ==> outcome_from(initial_step(true), succeeds)
            == outcome_from(initial_step(false), succeeds),
{
}

} // verus!
