//! One render job, from the first question to the engine to the removal of its
//! container.
//!
//! The run is a sequence of steps. Each step is something that the host has to
//! do (run a command, read a file), together with what to do with the answer:
//! resuming with the answer gives the next step, and the last step is the
//! result. Nothing here touches the machine, and nothing here knows the host
//! directory that the job's files are kept in.

use crate::command::{self, CommandLine, ProcessOutput, optional, printed, ran_well};
use crate::digest::{pin_of, pinned};
use crate::engine::{self, Engine, Feed, FeedEnd, RUNSC_PATH, engine_description, podman};
use crate::sandbox::{
    ContributorLimits, EffectiveCaps, JOB_IMAGE, RenderJobParams, build_container_args,
    container_args, is_clamped,
};
use crate::text;
use vstd::prelude::*;

verus! {

/// What the name of a rendered file begins with.
pub const OUTPUT_PREFIX: &'static str = "render_";

/// The output pattern that Blender is given: it pads the frame number to the
/// width of the hash signs.
pub const OUTPUT_PATTERN: &'static str = "render_####";

/// How much of the engine's complaint is kept when a container cannot be made.
pub const COMPLAINT_BYTES: usize = 500;

/// How much of a job's output is kept.
pub const LOG_BYTES: usize = 4000;

/// What came of a job.
#[derive(Debug, Clone)]
pub struct JobOutcome {
    pub success: bool,
    pub output_path: Option<String>,
    pub exit_code: Option<i32>,
    pub timed_out: bool,
    /// End of the container's combined output, for reporting failures.
    pub log_tail: String,
    pub effective_caps: EffectiveCaps,
    pub used_gvisor: bool,
}

/// What stays fixed through a run.
#[derive(Debug)]
pub struct JobPlan {
    pub engine: Engine,
    pub container_name: String,
    pub input_file_name: String,
    pub params: RenderJobParams,
    /// What the job gets; see [`EffectiveCaps::clamp`].
    pub caps: EffectiveCaps,
    /// Digest that the render image must have, where one is pinned.
    pub expected_digest: Option<String>,
    /// A developer has opted out of gVisor.
    pub allow_missing_gvisor: bool,
}

/// How the job's process ended.
#[derive(Debug)]
pub struct JobExit {
    pub exit_code: Option<i32>,
    pub timed_out: bool,
    pub log_tail: String,
}

/// What the answer to a command is for.
#[derive(Debug)]
pub enum RunPhase {
    /// Is the engine there?
    Version,
    /// Which image is installed?
    Digest,
    /// Is gVisor there?
    Gvisor,
    /// Creating the container.
    Create { use_gvisor: bool },
    /// Stopping a job that ran out of time.
    Kill { use_gvisor: bool, exit: JobExit },
    /// Streaming the render out.
    CopyOut { use_gvisor: bool, exit: JobExit },
    /// Removing the container and its work volume.
    Remove { result: Result<JobOutcome, String> },
}

/// How running the job itself ended.
#[derive(Debug)]
pub enum JobEnd {
    NotStarted(String),
    WaitFailed(String),
    TimedOut,
    Ended(ProcessOutput),
}

/// A file in the job's directory: its name, and its whole path in words.
#[derive(Debug)]
pub struct FoundFile {
    pub name: String,
    pub path: String,
}

#[derive(Debug)]
pub struct AfterRun {
    pub plan: JobPlan,
    pub phase: RunPhase,
}

#[derive(Debug)]
pub struct AfterRead {
    pub plan: JobPlan,
    pub use_gvisor: bool,
}

#[derive(Debug)]
pub struct AfterFeed {
    pub plan: JobPlan,
    pub use_gvisor: bool,
}

#[derive(Debug)]
pub struct AfterJob {
    pub plan: JobPlan,
    pub use_gvisor: bool,
}

#[derive(Debug)]
pub struct AfterSave {
    pub plan: JobPlan,
    pub use_gvisor: bool,
    pub exit: JobExit,
}

#[derive(Debug)]
pub struct AfterLook {
    pub plan: JobPlan,
    pub use_gvisor: bool,
    pub exit: JobExit,
}

#[derive(Debug)]
pub struct AfterList {
    pub plan: JobPlan,
    pub use_gvisor: bool,
    pub exit: JobExit,
}

/// What the host has to do next. File names are relative to the job's own
/// directory.
#[allow(inconsistent_fields)]
#[derive(Debug)]
pub enum RenderStep {
    /// Run a command to its end.
    Run { command: CommandLine, then: AfterRun },
    /// Read a file.
    ReadInput { file_name: String, then: AfterRead },
    /// Run a command with bytes on its standard input.
    Feed { feed: Feed, then: AfterFeed },
    /// Run a command, for at most so many seconds.
    RunJob { command: CommandLine, seconds: u64, then: AfterJob },
    /// Write a file.
    Save { file_name: String, bytes: Vec<u8>, then: AfterSave },
    /// See whether a file is there; answered with its path if it is.
    Look { file_name: String, then: AfterLook },
    /// List the directory; answered with nothing when it cannot be listed.
    List { then: AfterList },
    /// The run is over.
    Done(Result<JobOutcome, String>),
}

// ---------------------------------------------------------------------------
// Messages and commands
// ---------------------------------------------------------------------------

pub open spec fn unavailable_message(distro: Seq<char>) -> Seq<char> {
    "refusing to run: "@ + engine_description(distro)
        + " is not available, so there is nowhere to run this job safely. Install the job runtime — see docs/wsl-runtime-setup.md."@
}

pub open spec fn no_gvisor_message(distro: Seq<char>) -> Seq<char> {
    "refusing to run: "@ + engine_description(distro)
        + " cannot provide gVisor, and running a buyer's code without it is not something to do quietly. Set SPARECYCLES_ALLOW_NO_GVISOR=true to override during development."@
}

/// Why the installed image must not be used, if it must not: `actual` is its
/// digest, as far as it could be read.
pub open spec fn digest_refusal(
    expected: Option<Seq<char>>,
    actual: Option<Seq<char>>,
) -> Option<Seq<char>> {
    match (expected, actual) {
        (None, _) => None,
        (Some(wanted), Some(found)) => if found == wanted {
            None
        } else {
            Some(
                "refusing to run: "@ + JOB_IMAGE@ + " is "@ + found + ", expected "@ + wanted
                    + ". The image has been replaced since it was pinned."@,
            )
        },
        (Some(_), None) => Some("refusing to run: cannot read the digest of "@ + JOB_IMAGE@),
    }
}

/// Refuses to run if the local image is not the pinned one. Without a pinned
/// digest every image passes.
pub fn verify_image_digest(expected: &Option<String>, actual: &Option<String>) -> (r: Result<
    (),
    String,
>)
    ensures
        engine::failure(r) == digest_refusal(optional(*expected), optional(*actual)),
{
    match expected {
        None => Ok(()),
        Some(wanted) => match actual {
            Some(found) => {
                if text::same_text(found, wanted) {
                    Ok(())
                } else {
                    let start = text::join5(
                        "refusing to run: ",
                        JOB_IMAGE,
                        " is ",
                        found,
                        ", expected ",
                    );
                    Err(
                        text::join3(
                            &start,
                            wanted,
                            ". The image has been replaced since it was pinned.",
                        ),
                    )
                }
            },
            None => Err(
                text::join2("refusing to run: cannot read the digest of ", JOB_IMAGE),
            ),
        },
    }
}

/// The digest that the render image must have, from its configured form.
pub fn expected_image_digest(configured: &Option<String>) -> (digest: Option<String>)
    ensures
        optional(digest) == pinned(optional(*configured)),
{
    pin_of(configured)
}

/// Asks the engine for its version, which only a working engine answers.
pub open spec fn version_args() -> Seq<Seq<char>> {
    seq!["version"@, "--format"@, "{{.Server.Version}}"@]
}

/// Asks the engine for the digest of the render image.
pub open spec fn digest_args() -> Seq<Seq<char>> {
    seq!["image"@, "inspect"@, "--format"@, "{{.Id}}"@, JOB_IMAGE@]
}

/// Asks the engine whether the render image is there.
pub open spec fn image_args() -> Seq<Seq<char>> {
    seq!["image"@, "inspect"@, JOB_IMAGE@]
}

/// Removes a container, running or not, with its anonymous volumes.
pub open spec fn remove_args(container: Seq<char>) -> Seq<Seq<char>> {
    seq!["container"@, "rm"@, "--force"@, "--volumes"@, container]
}

pub fn version_command(engine: &Engine) -> (command: CommandLine)
    ensures
        command@ == podman(engine.distro_name(), version_args()),
{
    engine.cmd_with(text::list3("version", "--format", "{{.Server.Version}}"))
}

pub fn digest_command(engine: &Engine) -> (command: CommandLine)
    ensures
        command@ == podman(engine.distro_name(), digest_args()),
{
    engine.cmd_with(text::list5("image", "inspect", "--format", "{{.Id}}", JOB_IMAGE))
}

pub fn image_command(engine: &Engine) -> (command: CommandLine)
    ensures
        command@ == podman(engine.distro_name(), image_args()),
{
    engine.cmd_with(text::list3("image", "inspect", JOB_IMAGE))
}

/// Runs gVisor itself. Podman reports its default runtime whatever a container
/// is later given, so the binary is what is asked.
pub fn gvisor_command(engine: &Engine) -> (command: CommandLine)
    ensures
        command@ == engine::inside(engine.distro_name(), RUNSC_PATH@, seq!["--version"@]),
{
    let mut command = engine.host_cmd(RUNSC_PATH);
    command.args.push("--version".to_owned());
    assert(command@.args =~= engine::inside(
        engine.distro_name(),
        RUNSC_PATH@,
        seq!["--version"@],
    ).args);
    command
}

/// The name that Blender gives the file of a frame.
pub open spec fn rendered_name(frame: u32) -> Seq<char> {
    OUTPUT_PREFIX@ + text::zero_padded(frame as nat, 4) + ".png"@
}

pub fn rendered_file_name(frame: u32) -> (name: String)
    ensures
        name@ == rendered_name(frame),
{
    text::join3(OUTPUT_PREFIX, &text::to_zero_padded(frame as u64, 4), ".png")
}

/// A file name that a render can have, however Blender padded the frame number.
pub open spec fn is_render(name: Seq<char>) -> bool {
    text::begins_with(name, OUTPUT_PREFIX@) && text::ends_in(name, ".png"@)
}

/// The path of the first file in a listing that can be a render.
pub open spec fn first_render(files: Seq<FoundFile>) -> Option<Seq<char>>
    decreases files.len(),
{
    if files.len() == 0 {
        None
    } else if is_render(files[0].name@) {
        Some(files[0].path@)
    } else {
        first_render(files.drop_first())
    }
}

/// Picks the render from a listing of the job's directory.
pub fn find_rendered_file(files: Vec<FoundFile>) -> (path: Option<String>)
    ensures
        optional(path) == first_render(files@),
{
    let mut i: usize = 0;
    assert(files@.skip(0) =~= files@);
    while i < files.len()
        invariant
            i <= files@.len(),
            first_render(files@.skip(i as int)) == first_render(files@),
        decreases files@.len() - i,
    {
        let name = files[i].name.as_str();
        if text::starts_with(name, OUTPUT_PREFIX) && text::ends_with(name, ".png") {
            return Some(files[i].path.clone());
        }
        assert(files@.skip(i as int).drop_first() =~= files@.skip(i + 1));
        i += 1;
    }
    None
}

/// Everything that the job printed, standard output first, cut to its end.
pub open spec fn job_log(output: ProcessOutput) -> Seq<char> {
    text::longest_end(
        text::utf8_lossy(output.stdout@) + text::utf8_lossy(output.stderr@),
        LOG_BYTES as nat,
    )
}

pub open spec fn time_cap_message(caps: EffectiveCaps) -> Seq<char> {
    "job exceeded its "@ + text::decimal(caps.timeout_seconds as nat) + "s time cap"@
}

// ---------------------------------------------------------------------------
// The steps of a run
// ---------------------------------------------------------------------------

/// The run is over, with a message.
pub open spec fn refuses(next: RenderStep, message: Seq<char>) -> bool {
    next matches RenderStep::Done(Err(e)) && e@ == message
}

/// The next step runs `args` with Podman and goes on in some phase of the same
/// plan.
pub open spec fn runs(next: RenderStep, plan: JobPlan, args: Seq<Seq<char>>) -> bool {
    next matches RenderStep::Run { command, then } && command@ == podman(
        plan.engine.distro_name(),
        args,
    ) && then.plan == plan
}

/// The next step tears the container down; the run will end in `message`.
pub open spec fn fails(next: RenderStep, plan: JobPlan, message: Seq<char>) -> bool {
    &&& runs(next, plan, remove_args(plan.container_name@))
    &&& next->Run_then.phase matches RunPhase::Remove { result: Err(e) } && e@ == message
}

/// The next step tears the container down; the run will end in the outcome of
/// this exit, with the render at `path` if there is one.
pub open spec fn finishes(
    next: RenderStep,
    plan: JobPlan,
    use_gvisor: bool,
    exit: JobExit,
    path: Option<Seq<char>>,
) -> bool {
    &&& runs(next, plan, remove_args(plan.container_name@))
    &&& next->Run_then.phase matches RunPhase::Remove { result: Ok(outcome) } && {
        &&& outcome.success == (!exit.timed_out && exit.exit_code == Some(0i32) && path is Some)
        &&& optional(outcome.output_path) == path
        &&& outcome.exit_code == exit.exit_code
        &&& outcome.timed_out == exit.timed_out
        &&& outcome.log_tail == exit.log_tail
        &&& outcome.effective_caps == plan.caps
        &&& outcome.used_gvisor == use_gvisor
    }
}

/// The next step asks whether gVisor is there.
pub open spec fn asks_for_gvisor(next: RenderStep, plan: JobPlan) -> bool {
    next matches RenderStep::Run { command, then } && command@ == engine::inside(
        plan.engine.distro_name(),
        RUNSC_PATH@,
        seq!["--version"@],
    ) && then.plan == plan && then.phase == RunPhase::Gvisor
}

/// The next step looks for the render under the name that it should have.
pub open spec fn looks(next: RenderStep, plan: JobPlan, use_gvisor: bool, exit: JobExit) -> bool {
    next matches RenderStep::Look { file_name, then } && file_name@ == rendered_name(
        plan.params.frame,
    ) && then == (AfterLook { plan, use_gvisor, exit })
}

/// The argument list that creates the container of a plan.
pub open spec fn creation_args(plan: JobPlan, use_gvisor: bool) -> Seq<Seq<char>> {
    container_args(
        plan.container_name@,
        plan.input_file_name@,
        OUTPUT_PATTERN@,
        plan.params,
        plan.caps,
        use_gvisor,
    )
}

/// Where the render of a plan stands in its container.
pub open spec fn render_path(plan: JobPlan) -> Seq<char> {
    "/work/"@ + rendered_name(plan.params.frame)
}

/// What follows the answer to a command.
pub open spec fn follows_run(
    then: AfterRun,
    end: Result<ProcessOutput, String>,
    next: RenderStep,
) -> bool {
    let plan = then.plan;
    let distro = plan.engine.distro_name();
    match then.phase {
        RunPhase::Version => if printed(end) is None {
            refuses(next, unavailable_message(distro))
        } else if plan.expected_digest is Some {
            runs(next, plan, digest_args()) && next->Run_then.phase == RunPhase::Digest
        } else {
            asks_for_gvisor(next, plan)
        },
        RunPhase::Digest => match digest_refusal(optional(plan.expected_digest), printed(end)) {
            Some(message) => refuses(next, message),
            None => asks_for_gvisor(next, plan),
        },
        RunPhase::Gvisor => if !ran_well(end) && !plan.allow_missing_gvisor {
            refuses(next, no_gvisor_message(distro))
        } else {
            runs(next, plan, creation_args(plan, ran_well(end))) && next->Run_then.phase
                == (RunPhase::Create { use_gvisor: ran_well(end) })
        },
        RunPhase::Create { use_gvisor } => match end {
            Err(e) => fails(next, plan, "failed to start podman: "@ + e@),
            Ok(output) => if output.success {
                next matches RenderStep::ReadInput { file_name, then } && file_name@
                    == plan.input_file_name@ && then == (AfterRead { plan, use_gvisor })
            } else {
                fails(
                    next,
                    plan,
                    "could not create job container: "@ + text::longest_end(
                        text::utf8_lossy(output.stderr@),
                        COMPLAINT_BYTES as nat,
                    ),
                )
            },
        },
        RunPhase::Kill { use_gvisor, exit } => looks(next, plan, use_gvisor, exit),
        RunPhase::CopyOut { use_gvisor, exit } => match engine::copy_out_result(
            render_path(plan),
            end,
        ) {
            Ok(rendered) => next matches RenderStep::Save { file_name, bytes, then } && file_name@
                == rendered_name(plan.params.frame) && bytes@ == rendered && then == (AfterSave {
                plan,
                use_gvisor,
                exit,
            }),
            Err(_) => looks(next, plan, use_gvisor, exit),
        },
        RunPhase::Remove { result } => next == RenderStep::Done(result),
    }
}

fn refuse(message: String) -> (next: RenderStep)
    ensures
        refuses(next, message@),
{
    RenderStep::Done(Err(message))
}

fn remove_command(plan: &JobPlan) -> (command: CommandLine)
    ensures
        command@ == podman(plan.engine.distro_name(), remove_args(plan.container_name@)),
{
    plan.engine.cmd_with(
        text::list5("container", "rm", "--force", "--volumes", &plan.container_name),
    )
}

fn fail(plan: JobPlan, message: String) -> (next: RenderStep)
    ensures
        fails(next, plan, message@),
{
    let command = remove_command(&plan);
    RenderStep::Run {
        command,
        then: AfterRun { plan, phase: RunPhase::Remove { result: Err(message) } },
    }
}

fn finish(plan: JobPlan, use_gvisor: bool, exit: JobExit, path: Option<String>) -> (next:
    RenderStep)
    ensures
        finishes(next, plan, use_gvisor, exit, optional(path)),
{
    let command = remove_command(&plan);
    let exited_well = match exit.exit_code {
        Some(code) => code == 0,
        None => false,
    };
    let outcome = JobOutcome {
        success: !exit.timed_out && exited_well && path.is_some(),
        output_path: path,
        exit_code: exit.exit_code,
        timed_out: exit.timed_out,
        log_tail: exit.log_tail,
        effective_caps: plan.caps,
        used_gvisor: use_gvisor,
    };
    RenderStep::Run {
        command,
        then: AfterRun { plan, phase: RunPhase::Remove { result: Ok(outcome) } },
    }
}

fn ask_for_gvisor(plan: JobPlan) -> (next: RenderStep)
    ensures
        asks_for_gvisor(next, plan),
{
    let command = gvisor_command(&plan.engine);
    RenderStep::Run { command, then: AfterRun { plan, phase: RunPhase::Gvisor } }
}

fn look(plan: JobPlan, use_gvisor: bool, exit: JobExit) -> (next: RenderStep)
    ensures
        looks(next, plan, use_gvisor, exit),
{
    let file_name = rendered_file_name(plan.params.frame);
    RenderStep::Look { file_name, then: AfterLook { plan, use_gvisor, exit } }
}

impl AfterRun {
    /// Goes on with what came of the command.
    pub fn resume(self, end: Result<ProcessOutput, String>) -> (next: RenderStep)
        ensures
            follows_run(self, end, next),
    {
        let plan = self.plan;
        match self.phase {
            RunPhase::Version => {
                if command::printed_value(end).is_none() {
                    refuse(
                        text::join3(
                            "refusing to run: ",
                            &plan.engine.describe(),
                            " is not available, so there is nowhere to run this job safely. Install the job runtime — see docs/wsl-runtime-setup.md.",
                        ),
                    )
                } else if plan.expected_digest.is_some() {
                    let command = digest_command(&plan.engine);
                    RenderStep::Run { command, then: AfterRun { plan, phase: RunPhase::Digest } }
                } else {
                    ask_for_gvisor(plan)
                }
            },
            RunPhase::Digest => {
                let found = command::printed_value(end);
                match verify_image_digest(&plan.expected_digest, &found) {
                    Err(message) => refuse(message),
                    Ok(_) => ask_for_gvisor(plan),
                }
            },
            RunPhase::Gvisor => {
                let use_gvisor = command::succeeded(&end);
                if !use_gvisor && !plan.allow_missing_gvisor {
                    refuse(
                        text::join3(
                            "refusing to run: ",
                            &plan.engine.describe(),
                            " cannot provide gVisor, and running a buyer's code without it is not something to do quietly. Set SPARECYCLES_ALLOW_NO_GVISOR=true to override during development.",
                        ),
                    )
                } else {
                    let args = build_container_args(
                        &plan.container_name,
                        &plan.input_file_name,
                        OUTPUT_PATTERN,
                        &plan.params,
                        plan.caps,
                        use_gvisor,
                    );
                    let command = plan.engine.cmd_with(args);
                    RenderStep::Run {
                        command,
                        then: AfterRun { plan, phase: RunPhase::Create { use_gvisor } },
                    }
                }
            },
            RunPhase::Create { use_gvisor } => match end {
                Err(e) => fail(plan, text::join2("failed to start podman: ", &e)),
                Ok(output) => if output.success {
                    let file_name = plan.input_file_name.clone();
                    RenderStep::ReadInput { file_name, then: AfterRead { plan, use_gvisor } }
                } else {
                    let said = text::from_utf8_lossy(output.stderr.as_slice());
                    fail(
                        plan,
                        text::join2(
                            "could not create job container: ",
                            &text::tail(&said, COMPLAINT_BYTES),
                        ),
                    )
                },
            },
            RunPhase::Kill { use_gvisor, exit } => look(plan, use_gvisor, exit),
            RunPhase::CopyOut { use_gvisor, exit } => {
                let file_name = rendered_file_name(plan.params.frame);
                let path = text::join2("/work/", &file_name);
                match engine::copied_out(&path, end) {
                    Ok(bytes) => RenderStep::Save {
                        file_name,
                        bytes,
                        then: AfterSave { plan, use_gvisor, exit },
                    },
                    Err(_) => look(plan, use_gvisor, exit),
                }
            },
            RunPhase::Remove { result } => RenderStep::Done(result),
        }
    }
}

/// What follows the answer to reading the job's input.
pub open spec fn follows_read(
    then: AfterRead,
    read: Result<Vec<u8>, String>,
    next: RenderStep,
) -> bool {
    let plan = then.plan;
    match read {
        Err(e) => fails(next, plan, "could not read job input: "@ + e@),
        Ok(input) => {
            ||| next matches RenderStep::Feed { feed, then: after } && {
                &&& feed.command@ == podman(
                    plan.engine.distro_name(),
                    seq!["cp"@, "-"@, engine::container_path(plan.container_name@, "/work"@)],
                )
                &&& engine::packs(feed.stdin@, plan.input_file_name@, input@)
                &&& engine::may_be_accepted(plan.input_file_name@)
                &&& after == (AfterFeed { plan, use_gvisor: then.use_gvisor })
            }
            // Never for a relative path.
            ||| engine::may_be_refused(plan.input_file_name@) && (exists|message: Seq<char>|
                fails(next, plan, message) && #[trigger] engine::refuses_name(
                    message,
                    plan.input_file_name@,
                ))
        },
    }
}

impl AfterRead {
    /// Goes on with the job's input.
    pub fn resume(self, read: Result<Vec<u8>, String>) -> (next: RenderStep)
        ensures
            follows_read(self, read, next),
    {
        let plan = self.plan;
        match read {
            Err(e) => fail(plan, text::join2("could not read job input: ", &e)),
            Ok(input) => {
                let planned = engine::copy_file_into(
                    &plan.engine,
                    &plan.container_name,
                    "/work",
                    &plan.input_file_name,
                    input.as_slice(),
                );
                match planned {
                    Ok(feed) => RenderStep::Feed {
                        feed,
                        then: AfterFeed { plan, use_gvisor: self.use_gvisor },
                    },
                    Err(message) => fail(plan, message),
                }
            },
        }
    }
}

/// What follows the answer to streaming the input in.
pub open spec fn follows_feed(then: AfterFeed, end: FeedEnd, next: RenderStep) -> bool {
    let plan = then.plan;
    match engine::copy_in_failure(end) {
        Some(message) => fails(next, plan, message),
        None => next matches RenderStep::RunJob { command, seconds, then: after } && {
            &&& command@ == podman(
                plan.engine.distro_name(),
                seq!["start"@, "--attach"@, plan.container_name@],
            )
            &&& seconds == plan.caps.timeout_seconds
            &&& after == (AfterJob { plan, use_gvisor: then.use_gvisor })
        },
    }
}

impl AfterFeed {
    /// Goes on with what came of streaming the input in.
    pub fn resume(self, end: FeedEnd) -> (next: RenderStep)
        ensures
            follows_feed(self, end, next),
    {
        let plan = self.plan;
        match engine::copied_into(end) {
            Err(message) => fail(plan, message),
            Ok(_) => {
                let command = plan.engine.cmd_with(
                    text::list3("start", "--attach", &plan.container_name),
                );
                let seconds: u64 = plan.caps.timeout_seconds;
                RenderStep::RunJob {
                    command,
                    seconds,
                    then: AfterJob { plan, use_gvisor: self.use_gvisor },
                }
            },
        }
    }
}

/// What follows the end of the job.
pub open spec fn follows_job(then: AfterJob, end: JobEnd, next: RenderStep) -> bool {
    let plan = then.plan;
    let use_gvisor = then.use_gvisor;
    match end {
        JobEnd::NotStarted(e) => fails(next, plan, "failed to start job container: "@ + e@),
        JobEnd::WaitFailed(e) => fails(next, plan, "job container failed: "@ + e@),
        JobEnd::TimedOut => {
            &&& runs(next, plan, seq!["kill"@, plan.container_name@])
            &&& next->Run_then.phase matches RunPhase::Kill { use_gvisor: g, exit } && {
                &&& g == use_gvisor
                &&& exit.timed_out
                &&& exit.exit_code is None
                &&& exit.log_tail@ == time_cap_message(plan.caps)
            }
        },
        JobEnd::Ended(output) => if output.exit_code == Some(0i32) {
            &&& runs(
                next,
                plan,
                seq![
                    "cp"@,
                    engine::container_path(plan.container_name@, render_path(plan)),
                    "-"@,
                ],
            )
            &&& next->Run_then.phase matches RunPhase::CopyOut { use_gvisor: g, exit } && g
                == use_gvisor && is_exit(exit, output)
        } else {
            next matches RenderStep::Look { then: after, .. } && looks(
                next,
                plan,
                use_gvisor,
                after.exit,
            ) && is_exit(after.exit, output)
        },
    }
}

/// The exit of a job that ended by itself.
pub open spec fn is_exit(exit: JobExit, output: ProcessOutput) -> bool {
    &&& !exit.timed_out
    &&& exit.exit_code == output.exit_code
    &&& exit.log_tail@ == job_log(output)
}

impl AfterJob {
    /// Goes on with the end of the job.
    pub fn resume(self, end: JobEnd) -> (next: RenderStep)
        ensures
            follows_job(self, end, next),
    {
        let plan = self.plan;
        let use_gvisor = self.use_gvisor;
        match end {
            JobEnd::NotStarted(e) => fail(plan, text::join2("failed to start job container: ", &e)),
            JobEnd::WaitFailed(e) => fail(plan, text::join2("job container failed: ", &e)),
            JobEnd::TimedOut => {
                let log_tail = text::join3(
                    "job exceeded its ",
                    &text::to_decimal(plan.caps.timeout_seconds),
                    "s time cap",
                );
                let exit = JobExit { exit_code: None, timed_out: true, log_tail };
                let command = plan.engine.cmd_with(text::list2("kill", &plan.container_name));
                RenderStep::Run {
                    command,
                    then: AfterRun { plan, phase: RunPhase::Kill { use_gvisor, exit } },
                }
            },
            JobEnd::Ended(output) => {
                let all = text::join2(
                    &text::from_utf8_lossy(output.stdout.as_slice()),
                    &text::from_utf8_lossy(output.stderr.as_slice()),
                );
                let log_tail = text::tail(&all, LOG_BYTES);
                let exit = JobExit { exit_code: output.exit_code, timed_out: false, log_tail };
                let exited_well = match output.exit_code {
                    Some(code) => code == 0,
                    None => false,
                };
                if exited_well {
                    let path = text::join2("/work/", &rendered_file_name(plan.params.frame));
                    let command = engine::copy_file_out(
                        &plan.engine,
                        &plan.container_name,
                        &path,
                    );
                    RenderStep::Run {
                        command,
                        then: AfterRun { plan, phase: RunPhase::CopyOut { use_gvisor, exit } },
                    }
                } else {
                    look(plan, use_gvisor, exit)
                }
            },
        }
    }
}

/// What follows the answer to saving the render.
pub open spec fn follows_save(then: AfterSave, saved: Result<(), String>, next: RenderStep) -> bool {
    match saved {
        Err(e) => fails(next, then.plan, "could not save the render: "@ + e@),
        Ok(_) => looks(next, then.plan, then.use_gvisor, then.exit),
    }
}

impl AfterSave {
    /// Goes on once the render is saved.
    pub fn resume(self, saved: Result<(), String>) -> (next: RenderStep)
        ensures
            follows_save(self, saved, next),
    {
        match saved {
            Err(e) => fail(self.plan, text::join2("could not save the render: ", &e)),
            Ok(_) => look(self.plan, self.use_gvisor, self.exit),
        }
    }
}

/// What follows the search for the render under its usual name.
pub open spec fn follows_look(then: AfterLook, path: Option<String>, next: RenderStep) -> bool {
    match path {
        Some(found) => finishes(next, then.plan, then.use_gvisor, then.exit, Some(found@)),
        None => next matches RenderStep::List { then: after } && after == (AfterList {
            plan: then.plan,
            use_gvisor: then.use_gvisor,
            exit: then.exit,
        }),
    }
}

impl AfterLook {
    /// Goes on with the path of the render, if it is where it should be.
    pub fn resume(self, path: Option<String>) -> (next: RenderStep)
        ensures
            follows_look(self, path, next),
    {
        match path {
            Some(found) => finish(self.plan, self.use_gvisor, self.exit, Some(found)),
            None => RenderStep::List {
                then: AfterList {
                    plan: self.plan,
                    use_gvisor: self.use_gvisor,
                    exit: self.exit,
                },
            },
        }
    }
}

/// What follows the listing of the job's directory.
pub open spec fn follows_list(
    then: AfterList,
    files: Option<Vec<FoundFile>>,
    next: RenderStep,
) -> bool {
    let path = match files {
        Some(listing) => first_render(listing@),
        None => None,
    };
    finishes(next, then.plan, then.use_gvisor, then.exit, path)
}

impl AfterList {
    /// Goes on with the files in the job's directory.
    pub fn resume(self, files: Option<Vec<FoundFile>>) -> (next: RenderStep)
        ensures
            follows_list(self, files, next),
    {
        let path = match files {
            Some(listing) => find_rendered_file(listing),
            None => None,
        };
        finish(self.plan, self.use_gvisor, self.exit, path)
    }
}

/// Starts the run of one render job.
///
/// `configured_digest` is the pin on the render image, as it was configured. The
/// limits are the contributor's, and what the job gets is clamped to them.
pub fn run_render_job(
    engine: Engine,
    input_file_name: &str,
    params: &RenderJobParams,
    limits: ContributorLimits,
    host_cores: u32,
    container_name: &str,
    configured_digest: &Option<String>,
    allow_missing_gvisor: bool,
) -> (first: RenderStep)
    ensures
        first matches RenderStep::Run { command, then } && {
            &&& command@ == podman(engine.distro_name(), version_args())
            &&& then.phase == RunPhase::Version
            &&& then.plan.engine == engine
            &&& then.plan.container_name@ == container_name@
            &&& then.plan.input_file_name@ == input_file_name@
            &&& then.plan.params == *params
            &&& is_clamped(then.plan.caps, params.requested_caps, limits, host_cores)
            &&& optional(then.plan.expected_digest) == pinned(optional(*configured_digest))
            &&& then.plan.allow_missing_gvisor == allow_missing_gvisor
        },
{
    let caps = EffectiveCaps::clamp(params.requested_caps, limits, host_cores);
    let command = version_command(&engine);
    let plan = JobPlan {
        engine,
        container_name: container_name.to_owned(),
        input_file_name: input_file_name.to_owned(),
        params: *params,
        caps,
        expected_digest: expected_image_digest(configured_digest),
        allow_missing_gvisor,
    };
    RenderStep::Run { command, then: AfterRun { plan, phase: RunPhase::Version } }
}

} // verus!
