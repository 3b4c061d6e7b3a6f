//! One assigned job, end to end: fetch its input, hand it to the sandbox, and
//! report the result to the backend.
//!
//! The job itself never gets the network: its input is fetched on the host, and
//! the container runs cut off. As elsewhere, a run is a sequence of steps for the
//! host to perform.

use crate::command::optional;
use crate::digest::pinned;
use crate::engine::{Engine, podman};
use crate::render::{JobOutcome, RenderStep, RunPhase, run_render_job, version_args};
use crate::sandbox::{ContributorLimits, RenderJobParams, is_clamped};
use crate::text;
use vstd::prelude::*;

verus! {

/// File name of a job's input, in its directory and in its container.
pub const INPUT_NAME: &'static str = "input.blend";

/// What the name of a job's container begins with.
pub const CONTAINER_PREFIX: &'static str = "sparecycles-job-";

/// Longest form of an id that is used in names.
pub const MAX_ID_LENGTH: usize = 64;

/// One job to run, as the backend assigned it.
#[derive(Debug)]
pub struct RunJobRequest {
    pub assignment_id: String,
    pub job_id: String,
    pub params: RenderJobParams,
    pub limits: ContributorLimits,
    /// Base URL of the backend.
    pub backend_url: String,
    /// Bearer token of this contributor's session.
    pub token: String,
}

/// What the node brings to a run.
#[derive(Debug)]
pub struct NodeSettings {
    pub engine: Engine,
    pub host_cores: u32,
    /// The pin on the render image, as it was configured.
    pub image_digest: Option<String>,
    /// A developer has opted out of gVisor.
    pub allow_missing_gvisor: bool,
}

// ---------------------------------------------------------------------------
// Ids
// ---------------------------------------------------------------------------

/// A character that an id may keep.
pub open spec fn is_id_char(c: char) -> bool {
    text::is_ascii_alphanumeric(c) || c == '-'
}

/// The characters of an id that may stay, in order.
pub open spec fn kept(id: Seq<char>) -> Seq<char> {
    id.filter(|c: char| is_id_char(c))
}

/// An id made safe for names and paths: ASCII letters, digits and dashes only,
/// the first [`MAX_ID_LENGTH`] of them.
pub open spec fn sanitized(id: Seq<char>) -> Seq<char> {
    if kept(id).len() <= MAX_ID_LENGTH {
        kept(id)
    } else {
        kept(id).take(MAX_ID_LENGTH as int)
    }
}

/// Ids come from the backend as UUIDs. Whatever else a hostile answer holds is
/// stripped, so that it cannot steer a path or a container's name.
pub fn sanitize_id(id: &str) -> (r: String)
    ensures
        r@ == sanitized(id@),
{
    let chars = text::chars_of(id);
    let mut r = String::new();
    let mut taken: usize = 0;
    let mut i: usize = 0;
    proof {
        reveal(Seq::filter);
        assert(chars@.take(0) =~= Seq::<char>::empty());
        assert(sanitized(chars@.take(0)) =~= r@);
    }
    while i < chars.len()
        invariant
            i <= chars@.len(),
            taken == r@.len() <= MAX_ID_LENGTH,
            r@ == sanitized(chars@.take(i as int)),
        decreases chars@.len() - i,
    {
        let c = chars[i];
        let keep = text::ascii_alphanumeric(c) || c == '-';
        proof {
            reveal(Seq::filter);
            let before = chars@.take(i as int);
            let after = chars@.take(i + 1);
            assert(after.drop_last() =~= before);
            assert(kept(after) == if keep {
                kept(before).push(c)
            } else {
                kept(before)
            });
            if kept(before).len() >= MAX_ID_LENGTH {
                assert(kept(after).take(MAX_ID_LENGTH as int) =~= kept(before).take(
                    MAX_ID_LENGTH as int,
                ));
            }
        }
        if keep && taken < MAX_ID_LENGTH {
            r.push(c);
            taken += 1;
        }
        i += 1;
    }
    assert(chars@.take(i as int) =~= id@);
    r
}

/// The name of the container of an assignment.
pub open spec fn container_name(assignment_id: Seq<char>) -> Seq<char> {
    CONTAINER_PREFIX@ + sanitized(assignment_id)
}

/// The components below the node's own data directory that a job's files are
/// kept in.
pub open spec fn scratch_place(assignment_id: Seq<char>) -> Seq<Seq<char>> {
    seq!["jobs"@, sanitized(assignment_id)]
}

/// The message for an id that nothing can be named after.
pub open spec fn unusable_id_message() -> Seq<char> {
    "refusing to run: the assignment id holds no letter, digit or dash"@
}

/// Where the files of a job are kept, below the node's own data directory and
/// never in a shared place. An id without a usable character is refused: it would
/// name the directory of all jobs.
pub fn job_scratch_dir(assignment_id: &str) -> (r: Result<Vec<String>, String>)
    ensures
        sanitized(assignment_id@).len() == 0 ==> (r matches Err(e) && e@ == unusable_id_message()),
        sanitized(assignment_id@).len() > 0 ==> (r matches Ok(below) && text::texts(below@)
            == scratch_place(assignment_id@)),
{
    let id = sanitize_id(assignment_id);
    if id.as_str().is_empty() {
        Err("refusing to run: the assignment id holds no letter, digit or dash".to_owned())
    } else {
        Ok(text::list2("jobs", &id))
    }
}

// ---------------------------------------------------------------------------
// Messages
// ---------------------------------------------------------------------------

pub open spec fn input_url(request: RunJobRequest) -> Seq<char> {
    request.backend_url@ + "/jobs/"@ + request.job_id@ + "/input"@
}

pub open spec fn assignment_url(request: RunJobRequest) -> Seq<char> {
    request.backend_url@ + "/assignments/"@ + request.assignment_id@
}

pub open spec fn output_url(request: RunJobRequest) -> Seq<char> {
    request.backend_url@ + "/assignments/"@ + request.assignment_id@ + "/output"@
}

/// An exit code as it is shown to people.
pub open spec fn shown_exit(code: Option<i32>) -> Seq<char> {
    match code {
        Some(n) => "Some("@ + text::signed_decimal(n as int) + ")"@,
        None => "None"@,
    }
}

fn show_exit(code: Option<i32>) -> (shown: String)
    ensures
        shown@ == shown_exit(code),
{
    match code {
        Some(n) => text::join3("Some(", &text::to_signed_decimal(n), ")"),
        None => "None".to_owned(),
    }
}

/// Why a job failed, for the backend.
pub open spec fn failure_words(outcome: JobOutcome) -> Seq<char> {
    if outcome.timed_out {
        "timed out after "@ + text::decimal(outcome.effective_caps.timeout_seconds as nat) + "s"@
    } else {
        "render failed (exit "@ + shown_exit(outcome.exit_code) + "): "@ + outcome.log_tail@
    }
}

pub fn failure_reason(outcome: &JobOutcome) -> (reason: String)
    ensures
        reason@ == failure_words(*outcome),
{
    if outcome.timed_out {
        text::join3(
            "timed out after ",
            &text::to_decimal(outcome.effective_caps.timeout_seconds),
            "s",
        )
    } else {
        text::join4(
            "render failed (exit ",
            &show_exit(outcome.exit_code),
            "): ",
            &outcome.log_tail,
        )
    }
}

// ---------------------------------------------------------------------------
// Steps
// ---------------------------------------------------------------------------

/// What the backend is told about an assignment.
#[derive(Debug)]
pub enum AssignmentUpdate {
    Running,
    Failed { error_message: String },
}

/// How a request for the job's input ended. The texts are the words of the
/// system, or the status of the answer.
#[derive(Debug)]
pub enum FetchEnd {
    NotSent(String),
    Refused(String),
    BodyFailed(String),
    Fetched(Vec<u8>),
}

/// How an upload ended.
#[derive(Debug)]
pub enum UploadEnd {
    NotSent(String),
    Refused(String),
    Accepted,
}

/// What comes once the backend has been told.
#[derive(Debug)]
pub enum TellPhase {
    Render,
    Finish { outcome: JobOutcome },
}

#[derive(Debug)]
pub struct AfterFetch {
    pub request: RunJobRequest,
    pub settings: NodeSettings,
}

#[derive(Debug)]
pub struct AfterStore {
    pub request: RunJobRequest,
    pub settings: NodeSettings,
}

#[derive(Debug)]
pub struct AfterTell {
    pub request: RunJobRequest,
    pub settings: NodeSettings,
    pub phase: TellPhase,
}

#[derive(Debug)]
pub struct AfterRender {
    pub request: RunJobRequest,
    pub settings: NodeSettings,
}

#[derive(Debug)]
pub struct AfterLoadRender {
    pub request: RunJobRequest,
    pub outcome: JobOutcome,
}

#[derive(Debug)]
pub struct AfterUpload {
    pub outcome: JobOutcome,
}

/// What the host has to do next. Every request to the backend carries the token.
#[allow(inconsistent_fields)]
#[derive(Debug)]
pub enum JobStep {
    /// Get the job's input.
    Fetch { url: String, token: String, then: AfterFetch },
    /// Write a file in the job's directory.
    Store { file_name: String, bytes: Vec<u8>, then: AfterStore },
    /// Patch the assignment. Whether it arrives makes no difference.
    Tell { url: String, token: String, update: AssignmentUpdate, then: AfterTell },
    /// Perform a render job from its first step on; answered with its result.
    Render { first: RenderStep, then: AfterRender },
    /// Read the rendered file.
    LoadRender { path: String, then: AfterLoadRender },
    /// Put the render, as a stream of bytes.
    Upload { url: String, token: String, body: Vec<u8>, then: AfterUpload },
    /// The run is over.
    Done(Result<JobOutcome, String>),
}

/// The run is over, with a message.
pub open spec fn ends(next: JobStep, message: Seq<char>) -> bool {
    next matches JobStep::Done(Err(e)) && e@ == message
}

/// The first step of the render of a request.
pub open spec fn renders(first: RenderStep, request: RunJobRequest, settings: NodeSettings) -> bool {
    first matches RenderStep::Run { command, then } && {
        &&& command@ == podman(settings.engine.distro_name(), version_args())
        &&& then.phase == RunPhase::Version
        &&& then.plan.engine.distro_name() == settings.engine.distro_name()
        &&& then.plan.container_name@ == container_name(request.assignment_id@)
        &&& then.plan.input_file_name@ == INPUT_NAME@
        &&& then.plan.params == request.params
        &&& is_clamped(
            then.plan.caps,
            request.params.requested_caps,
            request.limits,
            settings.host_cores,
        )
        &&& optional(then.plan.expected_digest) == pinned(optional(settings.image_digest))
        &&& then.plan.allow_missing_gvisor == settings.allow_missing_gvisor
    }
}

/// What a run begins with.
pub open spec fn starts_job(request: RunJobRequest, settings: NodeSettings, first: JobStep) -> bool {
    first matches JobStep::Fetch { url, token, then } && url@ == input_url(request) && token@
        == request.token@ && then == (AfterFetch { request, settings })
}

/// Starts the run of one assigned job.
pub fn run_and_report(request: RunJobRequest, settings: NodeSettings) -> (first: JobStep)
    ensures
        starts_job(request, settings, first),
{
    let url = text::join4(&request.backend_url, "/jobs/", &request.job_id, "/input");
    let token = request.token.clone();
    JobStep::Fetch { url, token, then: AfterFetch { request, settings } }
}

/// What follows the request for the input.
pub open spec fn follows_fetch(then: AfterFetch, end: FetchEnd, next: JobStep) -> bool {
    match end {
        FetchEnd::NotSent(e) => ends(next, "could not fetch job input: "@ + e@),
        FetchEnd::Refused(status) => ends(next, "could not fetch job input: HTTP "@ + status@),
        FetchEnd::BodyFailed(e) => ends(next, "could not read job input: "@ + e@),
        FetchEnd::Fetched(input) => next matches JobStep::Store { file_name, bytes, then: after }
            && file_name@ == INPUT_NAME@ && bytes == input && after == (AfterStore {
            request: then.request,
            settings: then.settings,
        }),
    }
}

impl AfterFetch {
    /// Goes on with the job's input.
    pub fn resume(self, end: FetchEnd) -> (next: JobStep)
        ensures
            follows_fetch(self, end, next),
    {
        match end {
            FetchEnd::NotSent(e) => JobStep::Done(
                Err(text::join2("could not fetch job input: ", &e)),
            ),
            FetchEnd::Refused(status) => JobStep::Done(
                Err(text::join2("could not fetch job input: HTTP ", &status)),
            ),
            FetchEnd::BodyFailed(e) => JobStep::Done(
                Err(text::join2("could not read job input: ", &e)),
            ),
            FetchEnd::Fetched(bytes) => JobStep::Store {
                file_name: INPUT_NAME.to_owned(),
                bytes,
                then: AfterStore { request: self.request, settings: self.settings },
            },
        }
    }
}

/// What follows the writing of the input.
pub open spec fn follows_store(then: AfterStore, stored: Result<(), String>, next: JobStep) -> bool {
    match stored {
        Err(e) => ends(next, "could not write job input: "@ + e@),
        Ok(_) => next matches JobStep::Tell { url, token, update, then: after } && {
            &&& url@ == assignment_url(then.request)
            &&& token@ == then.request.token@
            &&& update == AssignmentUpdate::Running
            &&& after == (AfterTell {
                request: then.request,
                settings: then.settings,
                phase: TellPhase::Render,
            })
        },
    }
}

impl AfterStore {
    /// Goes on once the input is written.
    pub fn resume(self, stored: Result<(), String>) -> (next: JobStep)
        ensures
            follows_store(self, stored, next),
    {
        match stored {
            Err(e) => JobStep::Done(Err(text::join2("could not write job input: ", &e))),
            Ok(_) => {
                let request = self.request;
                let url = text::join3(
                    &request.backend_url,
                    "/assignments/",
                    &request.assignment_id,
                );
                let token = request.token.clone();
                JobStep::Tell {
                    url,
                    token,
                    update: AssignmentUpdate::Running,
                    then: AfterTell {
                        request,
                        settings: self.settings,
                        phase: TellPhase::Render,
                    },
                }
            },
        }
    }
}

/// What follows the word to the backend, whether it arrived or not.
pub open spec fn follows_tell(then: AfterTell, next: JobStep) -> bool {
    match then.phase {
        TellPhase::Render => next matches JobStep::Render { first, then: after } && renders(
            first,
            then.request,
            then.settings,
        ) && after == (AfterRender { request: then.request, settings: then.settings }),
        TellPhase::Finish { outcome } => next == JobStep::Done(Ok(outcome)),
    }
}

impl AfterTell {
    /// Goes on once the backend has been told.
    pub fn resume(self) -> (next: JobStep)
        ensures
            follows_tell(self, next),
    {
        match self.phase {
            TellPhase::Render => {
                let request = self.request;
                let settings = self.settings;
                let engine = settings.engine.clone();
                let name = text::join2(CONTAINER_PREFIX, &sanitize_id(&request.assignment_id));
                let first = run_render_job(
                    engine,
                    INPUT_NAME,
                    &request.params,
                    request.limits,
                    settings.host_cores,
                    &name,
                    &settings.image_digest,
                    settings.allow_missing_gvisor,
                );
                JobStep::Render { first, then: AfterRender { request, settings } }
            },
            TellPhase::Finish { outcome } => JobStep::Done(Ok(outcome)),
        }
    }
}

/// What follows the render.
pub open spec fn follows_render(
    then: AfterRender,
    result: Result<JobOutcome, String>,
    next: JobStep,
) -> bool {
    match result {
        Err(e) => ends(next, e@),
        Ok(outcome) => if !outcome.success {
            next matches JobStep::Tell { url, token, update, then: after } && {
                &&& url@ == assignment_url(then.request)
                &&& token@ == then.request.token@
                &&& update matches AssignmentUpdate::Failed { error_message } && error_message@
                    == failure_words(outcome)
                &&& after == (AfterTell {
                    request: then.request,
                    settings: then.settings,
                    phase: TellPhase::Finish { outcome },
                })
            }
        } else {
            match outcome.output_path {
                Some(rendered) => next matches JobStep::LoadRender { path, then: after } && path@
                    == rendered@ && after == (AfterLoadRender { request: then.request, outcome }),
                None => next == JobStep::Done(Ok(outcome)),
            }
        },
    }
}

impl AfterRender {
    /// Goes on with the result of the render.
    pub fn resume(self, result: Result<JobOutcome, String>) -> (next: JobStep)
        ensures
            follows_render(self, result, next),
    {
        match result {
            Err(e) => JobStep::Done(Err(e)),
            Ok(outcome) => {
                let request = self.request;
                if !outcome.success {
                    let error_message = failure_reason(&outcome);
                    let url = text::join3(
                        &request.backend_url,
                        "/assignments/",
                        &request.assignment_id,
                    );
                    let token = request.token.clone();
                    return JobStep::Tell {
                        url,
                        token,
                        update: AssignmentUpdate::Failed { error_message },
                        then: AfterTell {
                            request,
                            settings: self.settings,
                            phase: TellPhase::Finish { outcome },
                        },
                    };
                }
                let path = match &outcome.output_path {
                    Some(rendered) => rendered.clone(),
                    None => {
                        return JobStep::Done(Ok(outcome));
                    },
                };
                JobStep::LoadRender { path, then: AfterLoadRender { request, outcome } }
            },
        }
    }
}

/// What follows the reading of the rendered file.
pub open spec fn follows_load_render(
    then: AfterLoadRender,
    read: Result<Vec<u8>, String>,
    next: JobStep,
) -> bool {
    match read {
        Err(e) => ends(next, "could not read rendered file: "@ + e@),
        Ok(rendered) => next matches JobStep::Upload { url, token, body, then: after } && {
            &&& url@ == output_url(then.request)
            &&& token@ == then.request.token@
            &&& body == rendered
            &&& after == (AfterUpload { outcome: then.outcome })
        },
    }
}

impl AfterLoadRender {
    /// Goes on with the rendered file.
    pub fn resume(self, read: Result<Vec<u8>, String>) -> (next: JobStep)
        ensures
            follows_load_render(self, read, next),
    {
        match read {
            Err(e) => JobStep::Done(Err(text::join2("could not read rendered file: ", &e))),
            Ok(body) => {
                let url = text::join4(
                    &self.request.backend_url,
                    "/assignments/",
                    &self.request.assignment_id,
                    "/output",
                );
                JobStep::Upload {
                    url,
                    token: self.request.token,
                    body,
                    then: AfterUpload { outcome: self.outcome },
                }
            },
        }
    }
}

/// What follows the upload.
pub open spec fn follows_upload(then: AfterUpload, end: UploadEnd, next: JobStep) -> bool {
    match end {
        UploadEnd::NotSent(e) => ends(next, "could not upload render: "@ + e@),
        UploadEnd::Refused(status) => ends(next, "could not upload render: HTTP "@ + status@),
        UploadEnd::Accepted => next == JobStep::Done(Ok(then.outcome)),
    }
}

impl AfterUpload {
    /// Goes on with what came of the upload.
    pub fn resume(self, end: UploadEnd) -> (next: JobStep)
        ensures
            follows_upload(self, end, next),
    {
        match end {
            UploadEnd::NotSent(e) => JobStep::Done(
                Err(text::join2("could not upload render: ", &e)),
            ),
            UploadEnd::Refused(status) => JobStep::Done(
                Err(text::join2("could not upload render: HTTP ", &status)),
            ),
            UploadEnd::Accepted => JobStep::Done(Ok(self.outcome)),
        }
    }
}

// ---------------------------------------------------------------------------
// The job's directory
// ---------------------------------------------------------------------------

/// How making the job's directory ended.
#[derive(Debug)]
pub enum ScratchEnd {
    /// The node has no data directory.
    NoDataDir(String),
    Failed(String),
    Made,
}

#[derive(Debug)]
pub struct AfterMakeScratch {
    pub request: RunJobRequest,
    pub settings: NodeSettings,
}

#[derive(Debug)]
pub struct AfterRun {}

#[derive(Debug)]
pub struct AfterRemoveScratch {
    pub result: Result<JobOutcome, String>,
}

/// What the host has to do next.
#[allow(inconsistent_fields)]
#[derive(Debug)]
pub enum RunStep {
    /// Make the job's directory, below the node's own data directory.
    MakeScratch { below: Vec<String>, then: AfterMakeScratch },
    /// Perform the run from its first step on; answered with its result.
    RunAndReport { first: JobStep, then: AfterRun },
    /// Remove the job's directory. It holds the buyer's data.
    RemoveScratch { then: AfterRemoveScratch },
    /// All is done.
    Done(Result<JobOutcome, String>),
}

/// What an assigned job begins with: its directory, unless its id is refused.
pub open spec fn starts_run(request: RunJobRequest, settings: NodeSettings, first: RunStep) -> bool {
    if sanitized(request.assignment_id@).len() == 0 {
        first matches RunStep::Done(Err(message)) && message@ == unusable_id_message()
    } else {
        first matches RunStep::MakeScratch { below, then } && text::texts(below@) == scratch_place(
            request.assignment_id@,
        ) && then == (AfterMakeScratch { request, settings })
    }
}

/// Starts one assigned job, with a directory of its own that lives as long as
/// the job.
pub fn run_job(request: RunJobRequest, settings: NodeSettings) -> (first: RunStep)
    ensures
        starts_run(request, settings, first),
{
    match job_scratch_dir(&request.assignment_id) {
        Ok(below) => RunStep::MakeScratch { below, then: AfterMakeScratch { request, settings } },
        Err(message) => RunStep::Done(Err(message)),
    }
}

/// What follows the making of the directory.
pub open spec fn follows_scratch(then: AfterMakeScratch, end: ScratchEnd, next: RunStep) -> bool {
    match end {
        ScratchEnd::NoDataDir(e) => next matches RunStep::Done(Err(message)) && message@
            == "no app data dir: "@ + e@,
        ScratchEnd::Failed(e) => next matches RunStep::Done(Err(message)) && message@
            == "could not create scratch dir: "@ + e@,
        ScratchEnd::Made => next matches RunStep::RunAndReport { first, .. } && starts_job(
            then.request,
            then.settings,
            first,
        ),
    }
}

impl AfterMakeScratch {
    /// Goes on once the directory is made.
    pub fn resume(self, end: ScratchEnd) -> (next: RunStep)
        ensures
            follows_scratch(self, end, next),
    {
        match end {
            ScratchEnd::NoDataDir(e) => RunStep::Done(
                Err(text::join2("no app data dir: ", &e)),
            ),
            ScratchEnd::Failed(e) => RunStep::Done(
                Err(text::join2("could not create scratch dir: ", &e)),
            ),
            ScratchEnd::Made => RunStep::RunAndReport {
                first: run_and_report(self.request, self.settings),
                then: AfterRun {  },
            },
        }
    }
}

/// What follows the run: whatever its result is, the directory goes.
pub open spec fn follows_job_run(result: Result<JobOutcome, String>, next: RunStep) -> bool {
    next matches RunStep::RemoveScratch { then } && then.result == result
}

impl AfterRun {
    /// Goes on with the result of the run.
    pub fn resume(self, result: Result<JobOutcome, String>) -> (next: RunStep)
        ensures
            follows_job_run(result, next),
    {
        RunStep::RemoveScratch { then: AfterRemoveScratch { result } }
    }
}

impl AfterRemoveScratch {
    /// Ends the job, whether the directory could be removed or not.
    pub fn resume(self) -> (next: RunStep)
        ensures
            next == RunStep::Done(self.result),
    {
        RunStep::Done(self.result)
    }
}

} // verus!
