//! One install of the job runtime, from the first question to `wsl.exe` to the
//! last check.
//!
//! Like a render job, an install is a sequence of steps for the host to perform:
//! resuming with the answer to a step gives the next one.

use crate::command::{self, CommandLine, ProcessOutput, complaint, complaint_of, optional, ran_well};
use crate::digest::{pin_of, pinned};
use crate::engine::{self, Engine, RUNSC_PATH, failure, podman, quoted_cli};
use crate::provision::{
    Directory, HashEnd, JOB_IMAGE_FILE, ROOTFS_FILE, artifact_verdict, chosen_distro, distro_name,
    install_dir, install_place, no_install_place, verify_artifact,
};
use crate::render::{gvisor_command, image_args, image_command};
use crate::text;
use crate::wsl::{
    decode_wsl_output, decoded, distros, installed_distros, is_distro_name, list_distros,
    list_distros_command, valid_distro_name,
};
use vstd::prelude::*;

verus! {

/// How far an install has come, for a progress bar.
#[derive(Debug, Clone)]
pub struct ProvisionProgress {
    /// Machine-readable step: `verify`, `import`, `load`, `check` or `done`.
    pub step: String,
    pub detail: String,
    /// Rough completion. Not an estimate of time.
    pub percent: u8,
}

/// What an install came to.
#[derive(Debug, Clone)]
pub struct ProvisionOutcome {
    pub distro_name: String,
    /// False when there were no pinned digests to check the artifacts against:
    /// the install worked, but nothing vouched for what was installed.
    pub artifacts_verified: bool,
    pub gvisor_available: bool,
    pub image_present: bool,
}

/// What stays fixed through an install.
#[derive(Debug)]
pub struct InstallPlan {
    /// Name of the distro to make.
    pub name: String,
    /// Digests that the artifacts must have, as the node was built with them.
    pub rootfs_pin: Option<String>,
    pub image_pin: Option<String>,
    /// The user's local data directory, as far as the host has one.
    pub local_app_data: Option<String>,
}

/// The artifacts to install, by their paths in words.
#[derive(Debug)]
pub struct Artifacts {
    pub rootfs: String,
    pub job_image: String,
}

/// One of the two artifacts.
#[derive(Debug, Clone, Copy, PartialEq, Eq, Structural)]
pub enum Artifact {
    Rootfs,
    JobImage,
}

/// An argument of the import: a text, or a path that the host knows.
#[derive(Debug)]
pub enum ImportArg {
    Text(String),
    /// The directory that was made for the distro.
    TargetDir,
    /// The root file system to import.
    RootfsFile,
}

/// What the answer to a command is for.
#[derive(Debug)]
pub enum InstallPhase {
    /// Which distros are there?
    Existing,
    /// Is gVisor in the new distro?
    Gvisor { verified: bool },
    /// Is the render image in the new distro?
    Image { verified: bool, gvisor_available: bool },
}

/// What comes once a report has been made.
#[derive(Debug)]
pub enum ReportPhase {
    VerifyRootfs { artifacts: Artifacts },
    VerifyImage { artifacts: Artifacts, rootfs_verified: bool },
    Import { verified: bool },
    Load { verified: bool },
    Check { verified: bool },
    Finish { outcome: ProvisionOutcome },
}

/// What the digest of a file is for.
#[derive(Debug)]
pub enum HashPhase {
    Rootfs { artifacts: Artifacts },
    JobImage { artifacts: Artifacts, rootfs_verified: bool },
}

/// How streaming the render image into the distro ended. The texts are the
/// system's words for what went wrong.
#[derive(Debug)]
pub enum LoadEnd {
    NotStarted(String),
    NoStdin,
    OpenFailed(String),
    StreamFailed(String),
    WaitFailed(String),
    Ended(ProcessOutput),
}

#[derive(Debug)]
pub struct AfterInstallRun {
    pub plan: InstallPlan,
    pub phase: InstallPhase,
}

#[derive(Debug)]
pub struct AfterLocate {
    pub plan: InstallPlan,
}

#[derive(Debug)]
pub struct AfterReport {
    pub plan: InstallPlan,
    pub phase: ReportPhase,
}

#[derive(Debug)]
pub struct AfterHash {
    pub plan: InstallPlan,
    pub phase: HashPhase,
}

#[derive(Debug)]
pub struct AfterMakeDir {
    pub plan: InstallPlan,
    pub verified: bool,
}

#[derive(Debug)]
pub struct AfterImport {
    pub plan: InstallPlan,
    pub verified: bool,
}

#[derive(Debug)]
pub struct AfterLoad {
    pub plan: InstallPlan,
    pub verified: bool,
}

/// What the host has to do next.
#[allow(inconsistent_fields)]
#[derive(Debug)]
pub enum InstallStep {
    /// Run a command to its end.
    Run { command: CommandLine, then: AfterInstallRun },
    /// Find the artifacts; answered with nothing when they are not there.
    Locate { then: AfterLocate },
    /// Tell whoever is watching.
    Report { progress: ProvisionProgress, then: AfterReport },
    /// Read an artifact through a hasher.
    Hash { artifact: Artifact, then: AfterHash },
    /// Make a directory, with those above it; answered with its path in words
    /// and what came of it.
    MakeDir { dir: Directory, then: AfterMakeDir },
    /// Run `wsl` with these arguments.
    Import { args: Vec<ImportArg>, then: AfterImport },
    /// Run a command with the render image on its standard input; answered with
    /// the path of the image in words and what came of it.
    Load { command: CommandLine, then: AfterLoad },
    /// The install is over.
    Done(Result<ProvisionOutcome, String>),
}

// ---------------------------------------------------------------------------
// Messages
// ---------------------------------------------------------------------------

pub open spec fn bad_name_message(name: Seq<char>) -> Seq<char> {
    "refusing to install: "@ + text::debug_quoted(name)
        + " is not a usable distro name. Use letters, digits, dot, dash or underscore."@
}

pub open spec fn exists_message(name: Seq<char>) -> Seq<char> {
    "the '"@ + name
        + "' distro already exists, so there is nothing to install. To reinstall deliberately: wsl --unregister "@
        + name + " — which permanently deletes it."@
}

pub open spec fn no_artifacts_message() -> Seq<char> {
    "could not find "@ + ROOTFS_FILE@ + " and "@ + JOB_IMAGE_FILE@
        + ". Build them with runtime/build.sh, or set SPARECYCLES_RUNTIME_DIR."@
}

/// What went wrong with an import, if anything did.
pub open spec fn import_failure(end: Result<ProcessOutput, String>) -> Option<Seq<char>> {
    match end {
        Err(e) => Some("could not run wsl --import: "@ + e@),
        Ok(output) => if output.success {
            None
        } else {
            Some("wsl --import failed: "@ + text::trimmed(decoded(output.stderr@)))
        },
    }
}

/// What went wrong with loading the render image, if anything did.
pub open spec fn load_failure(path: Seq<char>, end: LoadEnd) -> Option<Seq<char>> {
    match end {
        LoadEnd::NotStarted(e) => Some("could not start "@ + quoted_cli("load"@) + ": "@ + e@),
        LoadEnd::NoStdin => Some(quoted_cli("load"@) + " gave us no stdin"@),
        LoadEnd::OpenFailed(e) => Some("could not open "@ + path + ": "@ + e@),
        LoadEnd::StreamFailed(e) => Some("could not stream the render image: "@ + e@),
        LoadEnd::WaitFailed(e) => Some(quoted_cli("load"@) + " failed: "@ + e@),
        LoadEnd::Ended(output) => if output.success {
            None
        } else {
            Some(quoted_cli("load"@) + " failed: "@ + complaint(output.stderr@))
        },
    }
}

/// Reads what came of streaming the render image into the distro.
pub fn load_job_image(path: &str, end: LoadEnd) -> (r: Result<(), String>)
    ensures
        failure(r) == load_failure(path@, end),
{
    let cli = engine::cli_in_quotes("load");
    match end {
        LoadEnd::NotStarted(e) => Err(text::join4("could not start ", &cli, ": ", &e)),
        LoadEnd::NoStdin => Err(text::join2(&cli, " gave us no stdin")),
        LoadEnd::OpenFailed(e) => Err(text::join4("could not open ", path, ": ", &e)),
        LoadEnd::StreamFailed(e) => Err(text::join2("could not stream the render image: ", &e)),
        LoadEnd::WaitFailed(e) => Err(text::join3(&cli, " failed: ", &e)),
        LoadEnd::Ended(output) => if output.success {
            Ok(())
        } else {
            Err(text::join3(&cli, " failed: ", &complaint_of(&output.stderr)))
        },
    }
}

/// An argument of the import in the model.
pub enum ImportArgView {
    Text(Seq<char>),
    TargetDir,
    RootfsFile,
}

impl View for ImportArg {
    type V = ImportArgView;

    open spec fn view(&self) -> ImportArgView {
        match self {
            ImportArg::Text(t) => ImportArgView::Text(t@),
            ImportArg::TargetDir => ImportArgView::TargetDir,
            ImportArg::RootfsFile => ImportArgView::RootfsFile,
        }
    }
}

/// The arguments with which `wsl` imports a distro.
pub open spec fn import_args(name: Seq<char>) -> Seq<ImportArgView> {
    seq![
        ImportArgView::Text("--import"@),
        ImportArgView::Text(name),
        ImportArgView::TargetDir,
        ImportArgView::RootfsFile,
        ImportArgView::Text("--version"@),
        ImportArgView::Text("2"@),
    ]
}

// ---------------------------------------------------------------------------
// The steps of an install
// ---------------------------------------------------------------------------

/// The install is over, with a message.
pub open spec fn stops(next: InstallStep, message: Seq<char>) -> bool {
    next matches InstallStep::Done(Err(e)) && e@ == message
}

/// The next step reports progress in the same plan.
pub open spec fn reports(
    next: InstallStep,
    plan: InstallPlan,
    step: Seq<char>,
    detail: Seq<char>,
    percent: u8,
) -> bool {
    next matches InstallStep::Report { progress, then } && progress.step@ == step
        && progress.detail@ == detail && progress.percent == percent && then.plan == plan
}

/// The next step makes the directory for the distro, or the install ends for
/// want of a place.
pub open spec fn makes_dir(next: InstallStep, plan: InstallPlan, verified: bool) -> bool {
    match plan.local_app_data {
        None => stops(next, no_install_place()),
        Some(base) => next matches InstallStep::MakeDir { dir, then } && dir.base@ == base@
            && text::texts(dir.below@) == install_place(plan.name@) && then == (AfterMakeDir {
            plan,
            verified,
        }),
    }
}

/// The next step reports that the render image is being checked.
pub open spec fn turns_to_image(
    next: InstallStep,
    plan: InstallPlan,
    artifacts: Artifacts,
    rootfs_verified: bool,
) -> bool {
    &&& reports(next, plan, "verify"@, "Checking the render image"@, 20)
    &&& next->Report_then.phase == (ReportPhase::VerifyImage { artifacts, rootfs_verified })
}

/// What follows the answer to a command.
pub open spec fn follows_install_run(
    then: AfterInstallRun,
    end: Result<ProcessOutput, String>,
    next: InstallStep,
) -> bool {
    let plan = then.plan;
    match then.phase {
        InstallPhase::Existing => match distros(end) {
            Err(message) => stops(next, message),
            Ok(list) => if list.contains(plan.name@) {
                stops(next, exists_message(plan.name@))
            } else {
                next matches InstallStep::Locate { then: after } && after == (AfterLocate { plan })
            },
        },
        InstallPhase::Gvisor { verified } => next matches InstallStep::Run { command, then: after }
            && command@ == podman(plan.name@, image_args()) && after == (AfterInstallRun {
            plan,
            phase: InstallPhase::Image { verified, gvisor_available: ran_well(end) },
        }),
        InstallPhase::Image { verified, gvisor_available } => {
            &&& reports(next, plan, "done"@, "Runtime installed"@, 100)
            &&& next->Report_then.phase matches ReportPhase::Finish { outcome } && {
                &&& outcome.distro_name@ == plan.name@
                &&& outcome.artifacts_verified == verified
                &&& outcome.gvisor_available == gvisor_available
                &&& outcome.image_present == ran_well(end)
            }
        },
    }
}

/// What follows the search for artifacts.
pub open spec fn follows_locate(
    then: AfterLocate,
    found: Option<Artifacts>,
    next: InstallStep,
) -> bool {
    match found {
        None => stops(next, no_artifacts_message()),
        Some(artifacts) => {
            &&& reports(next, then.plan, "verify"@, "Checking the runtime artifacts"@, 5)
            &&& next->Report_then.phase == (ReportPhase::VerifyRootfs { artifacts })
        },
    }
}

/// What follows a report.
pub open spec fn follows_report(then: AfterReport, next: InstallStep) -> bool {
    let plan = then.plan;
    match then.phase {
        ReportPhase::VerifyRootfs { artifacts } => if pinned(optional(plan.rootfs_pin)) is Some {
            next matches InstallStep::Hash { artifact, then: after } && artifact == Artifact::Rootfs
                && after == (AfterHash { plan, phase: HashPhase::Rootfs { artifacts } })
        } else {
            turns_to_image(next, plan, artifacts, false)
        },
        ReportPhase::VerifyImage { artifacts, rootfs_verified } => if pinned(
            optional(plan.image_pin),
        ) is Some {
            next matches InstallStep::Hash { artifact, then: after } && artifact
                == Artifact::JobImage && after == (AfterHash {
                plan,
                phase: HashPhase::JobImage { artifacts, rootfs_verified },
            })
        } else {
            makes_dir(next, plan, false)
        },
        ReportPhase::Import { verified } => next matches InstallStep::Import { args, then: after }
            && args@.map_values(|a: ImportArg| a@) == import_args(plan.name@) && after == (
        AfterImport { plan, verified }),
        ReportPhase::Load { verified } => next matches InstallStep::Load { command, then: after }
            && command@ == podman(plan.name@, seq!["load"@]) && after == (AfterLoad {
            plan,
            verified,
        }),
        ReportPhase::Check { verified } => next matches InstallStep::Run { command, then: after }
            && command@ == engine::inside(plan.name@, RUNSC_PATH@, seq!["--version"@]) && after == (
        AfterInstallRun { plan, phase: InstallPhase::Gvisor { verified } }),
        ReportPhase::Finish { outcome } => next == InstallStep::Done(Ok(outcome)),
    }
}

/// What follows the hashing of an artifact.
pub open spec fn follows_hash(then: AfterHash, end: HashEnd, next: InstallStep) -> bool {
    let plan = then.plan;
    match then.phase {
        HashPhase::Rootfs { artifacts } => match artifact_verdict(
            artifacts.rootfs@,
            optional(plan.rootfs_pin),
            end,
        ) {
            Err(message) => stops(next, message),
            Ok(verified) => turns_to_image(next, plan, artifacts, verified),
        },
        HashPhase::JobImage { artifacts, rootfs_verified } => match artifact_verdict(
            artifacts.job_image@,
            optional(plan.image_pin),
            end,
        ) {
            Err(message) => stops(next, message),
            Ok(verified) => makes_dir(next, plan, rootfs_verified && verified),
        },
    }
}

/// What follows the making of the distro's directory.
pub open spec fn follows_make_dir(
    then: AfterMakeDir,
    shown: Seq<char>,
    made: Result<(), String>,
    next: InstallStep,
) -> bool {
    match made {
        Err(e) => stops(next, "could not create "@ + shown + ": "@ + e@),
        Ok(_) => {
            &&& reports(next, then.plan, "import"@, "Importing the WSL2 distro"@, 35)
            &&& next->Report_then.phase == (ReportPhase::Import { verified: then.verified })
        },
    }
}

/// What follows the import.
pub open spec fn follows_import(
    then: AfterImport,
    end: Result<ProcessOutput, String>,
    next: InstallStep,
) -> bool {
    match import_failure(end) {
        Some(message) => stops(next, message),
        None => {
            &&& reports(next, then.plan, "load"@, "Loading the render image into the runtime"@, 60)
            &&& next->Report_then.phase == (ReportPhase::Load { verified: then.verified })
        },
    }
}

/// What follows the loading of the render image.
pub open spec fn follows_load(
    then: AfterLoad,
    shown: Seq<char>,
    end: LoadEnd,
    next: InstallStep,
) -> bool {
    match load_failure(shown, end) {
        Some(message) => stops(next, message),
        None => {
            &&& reports(next, then.plan, "check"@, "Confirming gVisor and the render image"@, 90)
            &&& next->Report_then.phase == (ReportPhase::Check { verified: then.verified })
        },
    }
}

fn report(plan: InstallPlan, step: &str, detail: &str, percent: u8, phase: ReportPhase) -> (next:
    InstallStep)
    ensures
        reports(next, plan, step@, detail@, percent),
        next->Report_then.phase == phase,
{
    InstallStep::Report {
        progress: ProvisionProgress { step: step.to_owned(), detail: detail.to_owned(), percent },
        then: AfterReport { plan, phase },
    }
}

fn make_dir(plan: InstallPlan, verified: bool) -> (next: InstallStep)
    ensures
        makes_dir(next, plan, verified),
{
    match install_dir(&plan.local_app_data, &plan.name) {
        Ok(dir) => InstallStep::MakeDir { dir, then: AfterMakeDir { plan, verified } },
        Err(message) => InstallStep::Done(Err(message)),
    }
}

fn turn_to_image(plan: InstallPlan, artifacts: Artifacts, rootfs_verified: bool) -> (next:
    InstallStep)
    ensures
        turns_to_image(next, plan, artifacts, rootfs_verified),
{
    report(
        plan,
        "verify",
        "Checking the render image",
        20,
        ReportPhase::VerifyImage { artifacts, rootfs_verified },
    )
}

/// The engine inside a distro.
fn engine_in(name: &String) -> (engine: Engine)
    ensures
        engine.distro_name() == name@,
{
    Engine::Wsl { distro: name.clone() }
}

impl AfterInstallRun {
    /// Goes on with what came of the command.
    pub fn resume(self, end: Result<ProcessOutput, String>) -> (next: InstallStep)
        ensures
            follows_install_run(self, end, next),
    {
        let plan = self.plan;
        match self.phase {
            InstallPhase::Existing => match installed_distros(end) {
                Err(message) => InstallStep::Done(Err(message)),
                Ok(list) => {
                    if text::lists(&list, &plan.name) {
                        InstallStep::Done(
                            Err(
                                text::join5(
                                    "the '",
                                    &plan.name,
                                    "' distro already exists, so there is nothing to install. To reinstall deliberately: wsl --unregister ",
                                    &plan.name,
                                    " — which permanently deletes it.",
                                ),
                            ),
                        )
                    } else {
                        InstallStep::Locate { then: AfterLocate { plan } }
                    }
                },
            },
            InstallPhase::Gvisor { verified } => {
                let gvisor_available = command::succeeded(&end);
                let command = image_command(&engine_in(&plan.name));
                InstallStep::Run {
                    command,
                    then: AfterInstallRun {
                        plan,
                        phase: InstallPhase::Image { verified, gvisor_available },
                    },
                }
            },
            InstallPhase::Image { verified, gvisor_available } => {
                let outcome = ProvisionOutcome {
                    distro_name: plan.name.clone(),
                    artifacts_verified: verified,
                    gvisor_available,
                    image_present: command::succeeded(&end),
                };
                report(plan, "done", "Runtime installed", 100, ReportPhase::Finish { outcome })
            },
        }
    }
}

impl AfterLocate {
    /// Goes on with the artifacts, if they were found.
    pub fn resume(self, found: Option<Artifacts>) -> (next: InstallStep)
        ensures
            follows_locate(self, found, next),
    {
        match found {
            None => InstallStep::Done(
                Err(
                    text::join5(
                        "could not find ",
                        ROOTFS_FILE,
                        " and ",
                        JOB_IMAGE_FILE,
                        ". Build them with runtime/build.sh, or set SPARECYCLES_RUNTIME_DIR.",
                    ),
                ),
            ),
            Some(artifacts) => report(
                self.plan,
                "verify",
                "Checking the runtime artifacts",
                5,
                ReportPhase::VerifyRootfs { artifacts },
            ),
        }
    }
}

impl AfterReport {
    /// Goes on once the report is made.
    pub fn resume(self) -> (next: InstallStep)
        ensures
            follows_report(self, next),
    {
        let plan = self.plan;
        match self.phase {
            ReportPhase::VerifyRootfs { artifacts } => {
                if pin_of(&plan.rootfs_pin).is_some() {
                    InstallStep::Hash {
                        artifact: Artifact::Rootfs,
                        then: AfterHash { plan, phase: HashPhase::Rootfs { artifacts } },
                    }
                } else {
                    turn_to_image(plan, artifacts, false)
                }
            },
            ReportPhase::VerifyImage { artifacts, rootfs_verified } => {
                if pin_of(&plan.image_pin).is_some() {
                    InstallStep::Hash {
                        artifact: Artifact::JobImage,
                        then: AfterHash {
                            plan,
                            phase: HashPhase::JobImage { artifacts, rootfs_verified },
                        },
                    }
                } else {
                    make_dir(plan, false)
                }
            },
            ReportPhase::Import { verified } => {
                let args = vec![
                    ImportArg::Text("--import".to_owned()),
                    ImportArg::Text(plan.name.clone()),
                    ImportArg::TargetDir,
                    ImportArg::RootfsFile,
                    ImportArg::Text("--version".to_owned()),
                    ImportArg::Text("2".to_owned()),
                ];
                assert(args@.map_values(|a: ImportArg| a@) =~= import_args(plan.name@));
                InstallStep::Import { args, then: AfterImport { plan, verified } }
            },
            ReportPhase::Load { verified } => {
                let command = engine_in(&plan.name).cmd_with(text::list1("load"));
                InstallStep::Load { command, then: AfterLoad { plan, verified } }
            },
            ReportPhase::Check { verified } => {
                let command = gvisor_command(&engine_in(&plan.name));
                InstallStep::Run {
                    command,
                    then: AfterInstallRun { plan, phase: InstallPhase::Gvisor { verified } },
                }
            },
            ReportPhase::Finish { outcome } => InstallStep::Done(Ok(outcome)),
        }
    }
}

impl AfterHash {
    /// Goes on with what came of hashing the artifact.
    pub fn resume(self, end: HashEnd) -> (next: InstallStep)
        ensures
            follows_hash(self, end, next),
    {
        let plan = self.plan;
        match self.phase {
            HashPhase::Rootfs { artifacts } => match verify_artifact(
                &artifacts.rootfs,
                &plan.rootfs_pin,
                end,
            ) {
                Err(message) => InstallStep::Done(Err(message)),
                Ok(verified) => turn_to_image(plan, artifacts, verified),
            },
            HashPhase::JobImage { artifacts, rootfs_verified } => match verify_artifact(
                &artifacts.job_image,
                &plan.image_pin,
                end,
            ) {
                Err(message) => InstallStep::Done(Err(message)),
                Ok(verified) => make_dir(plan, rootfs_verified && verified),
            },
        }
    }
}

impl AfterMakeDir {
    /// Goes on once the directory is made. `shown` is its path in words.
    pub fn resume(self, shown: &str, made: Result<(), String>) -> (next: InstallStep)
        ensures
            follows_make_dir(self, shown@, made, next),
    {
        match made {
            Err(e) => InstallStep::Done(Err(text::join4("could not create ", shown, ": ", &e))),
            Ok(_) => report(
                self.plan,
                "import",
                "Importing the WSL2 distro",
                35,
                ReportPhase::Import { verified: self.verified },
            ),
        }
    }
}

impl AfterImport {
    /// Goes on with what came of the import.
    pub fn resume(self, end: Result<ProcessOutput, String>) -> (next: InstallStep)
        ensures
            follows_import(self, end, next),
    {
        match end {
            Err(e) => InstallStep::Done(Err(text::join2("could not run wsl --import: ", &e))),
            Ok(output) => {
                if output.success {
                    report(
                        self.plan,
                        "load",
                        "Loading the render image into the runtime",
                        60,
                        ReportPhase::Load { verified: self.verified },
                    )
                } else {
                    let said = decode_wsl_output(output.stderr.as_slice());
                    InstallStep::Done(
                        Err(text::join2("wsl --import failed: ", &text::trim(&said))),
                    )
                }
            },
        }
    }
}

impl AfterLoad {
    /// Goes on with what came of loading the render image. `shown` is the path
    /// of the image in words.
    pub fn resume(self, shown: &str, end: LoadEnd) -> (next: InstallStep)
        ensures
            follows_load(self, shown@, end, next),
    {
        match load_job_image(shown, end) {
            Err(message) => InstallStep::Done(Err(message)),
            Ok(_) => report(
                self.plan,
                "check",
                "Confirming gVisor and the render image",
                90,
                ReportPhase::Check { verified: self.verified },
            ),
        }
    }
}

/// What an install with this plan begins with: the question which distros there
/// are, unless the name is not usable.
pub open spec fn starts_install(plan: InstallPlan, first: InstallStep) -> bool {
    if is_distro_name(plan.name@) {
        first matches InstallStep::Run { command, then } && command@ == list_distros() && then == (
        AfterInstallRun { plan, phase: InstallPhase::Existing })
    } else {
        stops(first, bad_name_message(plan.name@))
    }
}

/// Starts an install of the runtime under the name that is configured for it.
pub fn install_runtime(
    configured: Option<String>,
    rootfs_pin: Option<String>,
    image_pin: Option<String>,
    local_app_data: Option<String>,
) -> (first: InstallStep)
    ensures
        exists|plan: InstallPlan| #[trigger]
            starts_install(plan, first) && plan.name@ == chosen_distro(optional(configured))
                && plan.rootfs_pin == rootfs_pin && plan.image_pin == image_pin
                && plan.local_app_data == local_app_data,
{
    let plan = InstallPlan {
        name: distro_name(configured),
        rootfs_pin,
        image_pin,
        local_app_data,
    };
    install_runtime_named(plan)
}

/// Starts an install of the runtime under a name: verify, import, load the
/// render image, confirm.
pub fn install_runtime_named(plan: InstallPlan) -> (first: InstallStep)
    ensures
        starts_install(plan, first),
{
    if !valid_distro_name(&plan.name) {
        return InstallStep::Done(
            Err(
                text::join3(
                    "refusing to install: ",
                    &text::to_debug_quoted(&plan.name),
                    " is not a usable distro name. Use letters, digits, dot, dash or underscore.",
                ),
            ),
        );
    }
    InstallStep::Run {
        command: list_distros_command(),
        then: AfterInstallRun { plan, phase: InstallPhase::Existing },
    }
}

} // verus!
