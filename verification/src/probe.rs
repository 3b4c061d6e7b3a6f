//! Asking the machine what it can do for a job: is the engine there, does it
//! offer gVisor, is the render image present?

use crate::command::{self, CommandLine, ProcessOutput, optional, printed, ran_well};
use crate::engine::{self, Engine, RUNSC_PATH, engine_description, podman};
use crate::provision::{chosen_distro, distro_name};
use crate::render::{
    digest_args, digest_command, gvisor_command, image_args, image_command, version_args,
    version_command,
};
use crate::text;
use vstd::prelude::*;

verus! {

#[derive(Debug, Clone)]
pub struct SandboxStatus {
    /// True when a usable container engine was found and answered.
    pub engine_available: bool,
    pub engine_version: Option<String>,
    /// Where jobs run, in words for a dashboard.
    pub engine: String,
    /// True when the engine offers gVisor. Without it, jobs are refused.
    pub gvisor_available: bool,
    pub image_present: bool,
    /// Digest of the local render image, to compare with the pinned one.
    pub image_digest: Option<String>,
    /// The isolation in force, in words.
    pub isolation: String,
}

/// The engine that jobs would run in, working or not: there is one candidate,
/// and nothing else on the machine is a fallback.
pub fn intended_engine(configured_distro: Option<String>) -> (engine: Engine)
    ensures
        engine.distro_name() == chosen_distro(optional(configured_distro)),
{
    Engine::Wsl { distro: distro_name(configured_distro) }
}

/// Picks where jobs run: the intended engine, if it answered the question for
/// its version.
pub fn select_engine(
    configured_distro: Option<String>,
    version: Result<ProcessOutput, String>,
) -> (r: Option<Engine>)
    ensures
        r is Some <==> printed(version) is Some,
        r matches Some(engine) ==> engine.distro_name() == chosen_distro(
            optional(configured_distro),
        ),
{
    if command::printed_value(version).is_some() {
        Some(intended_engine(configured_distro))
    } else {
        None
    }
}

/// The setting opts out of gVisor.
pub open spec fn opts_out(configured: Option<Seq<char>>) -> bool {
    configured matches Some(value) && value == "true"@
}

/// Whether a developer has opted out of gVisor: the setting has to be exactly
/// `true`.
pub fn allow_missing_gvisor(configured: &Option<String>) -> (r: bool)
    ensures
        r == (optional(*configured) == Some("true"@)),
        r == opts_out(optional(*configured)),
{
    match configured {
        Some(value) => text::same_text(value, "true"),
        None => false,
    }
}

/// The isolation in force, in words.
pub open spec fn isolation_words(
    distro: Seq<char>,
    engine_available: bool,
    gvisor_available: bool,
) -> Seq<char> {
    if !engine_available {
        engine_description(distro)
            + " is not available — jobs cannot run. Install the job runtime; see docs/wsl-runtime-setup.md"@
    } else if gvisor_available {
        engine_description(distro)
            + ", running jobs under gVisor (runsc): the job's syscalls are served by the sandbox kernel, not the host's"@
    } else {
        engine_description(distro)
            + " WITHOUT gVisor. Jobs are refused unless the development override is set — see SPARECYCLES_ALLOW_NO_GVISOR"@
    }
}

fn describe_isolation(engine: &Engine, engine_available: bool, gvisor_available: bool) -> (words:
    String)
    ensures
        words@ == isolation_words(engine.distro_name(), engine_available, gvisor_available),
{
    let description = engine.describe();
    if !engine_available {
        text::join2(
            &description,
            " is not available — jobs cannot run. Install the job runtime; see docs/wsl-runtime-setup.md",
        )
    } else if gvisor_available {
        text::join2(
            &description,
            ", running jobs under gVisor (runsc): the job's syscalls are served by the sandbox kernel, not the host's",
        )
    } else {
        text::join2(
            &description,
            " WITHOUT gVisor. Jobs are refused unless the development override is set — see SPARECYCLES_ALLOW_NO_GVISOR",
        )
    }
}

/// What the answer to a command is for.
#[derive(Debug)]
pub enum ProbePhase {
    /// Is the engine there?
    Found,
    /// Which version is it?
    Version,
    /// Is gVisor there?
    Gvisor { version: Option<String> },
    /// Is the render image there?
    Image { version: Option<String>, gvisor_available: bool },
    /// Which render image is it?
    Digest { version: Option<String>, gvisor_available: bool },
}

#[derive(Debug)]
pub struct AfterProbe {
    pub engine: Engine,
    pub phase: ProbePhase,
}

/// What the host has to do next.
#[derive(Debug)]
pub enum ProbeStep {
    /// Run a command to its end.
    Run { command: CommandLine, then: AfterProbe },
    /// The probe is over.
    Done(SandboxStatus),
}

/// The probe is over, and this is what it found. What a machine without an
/// engine could have is not asked for.
pub open spec fn found(
    next: ProbeStep,
    engine: Engine,
    engine_available: bool,
    version: Option<Seq<char>>,
    gvisor_available: bool,
    image_present: bool,
    digest: Option<Seq<char>>,
) -> bool {
    next matches ProbeStep::Done(status) && {
        &&& status.engine_available == engine_available
        &&& optional(status.engine_version) == version
        &&& status.engine@ == engine_description(engine.distro_name())
        &&& status.gvisor_available == gvisor_available
        &&& status.image_present == image_present
        &&& optional(status.image_digest) == digest
        &&& status.isolation@ == isolation_words(
            engine.distro_name(),
            engine_available,
            gvisor_available,
        )
    }
}

fn finish(
    engine: Engine,
    engine_available: bool,
    version: Option<String>,
    gvisor_available: bool,
    image_present: bool,
    digest: Option<String>,
) -> (next: ProbeStep)
    ensures
        found(
            next,
            engine,
            engine_available,
            optional(version),
            gvisor_available,
            image_present,
            optional(digest),
        ),
{
    ProbeStep::Done(
        SandboxStatus {
            engine_available,
            engine_version: version,
            engine: engine.describe(),
            gvisor_available,
            image_present,
            image_digest: digest,
            isolation: describe_isolation(&engine, engine_available, gvisor_available),
        },
    )
}

/// What follows the answer to a command.
pub open spec fn follows_probe(
    then: AfterProbe,
    end: Result<ProcessOutput, String>,
    next: ProbeStep,
) -> bool {
    let engine = then.engine;
    let distro = engine.distro_name();
    match then.phase {
        ProbePhase::Found => if printed(end) is Some {
            next matches ProbeStep::Run { command, then: after } && command@ == podman(
                distro,
                version_args(),
            ) && after == (AfterProbe { engine, phase: ProbePhase::Version })
        } else {
            found(next, engine, false, None, false, false, None)
        },
        ProbePhase::Version => next matches ProbeStep::Run { command, then: after } && command@
            == engine::inside(distro, RUNSC_PATH@, seq!["--version"@]) && after.engine == engine && (
        after.phase matches ProbePhase::Gvisor { version } && optional(version) == printed(end)),
        ProbePhase::Gvisor { version } => next matches ProbeStep::Run { command, then: after }
            && command@ == podman(distro, image_args()) && after == (AfterProbe {
            engine,
            phase: ProbePhase::Image { version, gvisor_available: ran_well(end) },
        }),
        ProbePhase::Image { version, gvisor_available } => if ran_well(end) {
            next matches ProbeStep::Run { command, then: after } && command@ == podman(
                distro,
                digest_args(),
            ) && after == (AfterProbe {
                engine,
                phase: ProbePhase::Digest { version, gvisor_available },
            })
        } else {
            found(next, engine, true, optional(version), gvisor_available, false, None)
        },
        ProbePhase::Digest { version, gvisor_available } => found(
            next,
            engine,
            true,
            optional(version),
            gvisor_available,
            true,
            printed(end),
        ),
    }
}

impl AfterProbe {
    /// Goes on with what came of the command.
    pub fn resume(self, end: Result<ProcessOutput, String>) -> (next: ProbeStep)
        ensures
            follows_probe(self, end, next),
    {
        let engine = self.engine;
        match self.phase {
            ProbePhase::Found => {
                if command::printed_value(end).is_some() {
                    let command = version_command(&engine);
                    ProbeStep::Run {
                        command,
                        then: AfterProbe { engine, phase: ProbePhase::Version },
                    }
                } else {
                    finish(engine, false, None, false, false, None)
                }
            },
            ProbePhase::Version => {
                let version = command::printed_value(end);
                let command = gvisor_command(&engine);
                ProbeStep::Run {
                    command,
                    then: AfterProbe { engine, phase: ProbePhase::Gvisor { version } },
                }
            },
            ProbePhase::Gvisor { version } => {
                let gvisor_available = command::succeeded(&end);
                let command = image_command(&engine);
                ProbeStep::Run {
                    command,
                    then: AfterProbe {
                        engine,
                        phase: ProbePhase::Image { version, gvisor_available },
                    },
                }
            },
            ProbePhase::Image { version, gvisor_available } => {
                if command::succeeded(&end) {
                    let command = digest_command(&engine);
                    ProbeStep::Run {
                        command,
                        then: AfterProbe {
                            engine,
                            phase: ProbePhase::Digest { version, gvisor_available },
                        },
                    }
                } else {
                    finish(engine, true, version, gvisor_available, false, None)
                }
            },
            ProbePhase::Digest { version, gvisor_available } => {
                let digest = command::printed_value(end);
                finish(engine, true, version, gvisor_available, true, digest)
            },
        }
    }
}

/// The first step of a probe: the question whether the engine is there.
pub open spec fn starts_probe(engine: Engine, first: ProbeStep) -> bool {
    first matches ProbeStep::Run { command, then } && command@ == podman(
        engine.distro_name(),
        version_args(),
    ) && then == (AfterProbe { engine, phase: ProbePhase::Found })
}

/// Starts a probe of the engine.
pub fn probe_sandbox(engine: Engine) -> (first: ProbeStep)
    ensures
        starts_probe(engine, first),
{
    let command = version_command(&engine);
    ProbeStep::Run { command, then: AfterProbe { engine, phase: ProbePhase::Found } }
}

// ---------------------------------------------------------------------------
// Laws
// ---------------------------------------------------------------------------

/// The steps of a probe and the answers between them, from the start on.
pub open spec fn is_probe(
    engine: Engine,
    steps: Seq<ProbeStep>,
    answers: Seq<Result<ProcessOutput, String>>,
) -> bool {
    &&& steps.len() == answers.len() + 1
    &&& starts_probe(engine, steps[0])
    &&& forall|i: int|
        0 <= i < answers.len() ==> (#[trigger] steps[i] matches ProbeStep::Run { then, .. }
            && follows_probe(then, answers[i], steps[i + 1]))
}

/// How far a step is into the probe.
spec fn stage(step: ProbeStep) -> int {
    match step {
        ProbeStep::Run { then, .. } => match then.phase {
            ProbePhase::Found => 0,
            ProbePhase::Version => 1,
            ProbePhase::Gvisor { .. } => 2,
            ProbePhase::Image { .. } => 3,
            ProbePhase::Digest { .. } => 4,
        },
        ProbeStep::Done(_) => 5,
    }
}

/// What holds of a status: nothing is there without the engine, no digest
/// without the image, and the words say which isolation is in force.
pub open spec fn is_consistent(engine: Engine, status: SandboxStatus) -> bool {
    &&& status.gvisor_available || status.image_present || status.engine_version is Some
        ==> status.engine_available
    &&& status.image_digest is Some ==> status.image_present
    &&& status.engine@ == engine_description(engine.distro_name())
    &&& status.isolation@ == isolation_words(
        engine.distro_name(),
        status.engine_available,
        status.gvisor_available,
    )
}

proof fn lemma_probe(
    engine: Engine,
    steps: Seq<ProbeStep>,
    answers: Seq<Result<ProcessOutput, String>>,
    i: int,
)
    requires
        is_probe(engine, steps, answers),
        0 <= i < steps.len(),
    ensures
        i <= stage(steps[i]) <= 5,
        steps[i] matches ProbeStep::Run { then, .. } ==> then.engine == engine,
        steps[i] matches ProbeStep::Done(status) ==> is_consistent(engine, status),
    decreases i,
{
    if i > 0 {
        lemma_probe(engine, steps, answers, i - 1);
        assert(steps[i - 1] matches ProbeStep::Run { then, .. } && follows_probe(
            then,
            answers[i - 1],
            steps[i],
        ));
    }
}

/// A probe comes to an end: it takes at most five answers.
pub proof fn law_every_probe_ends(
    engine: Engine,
    steps: Seq<ProbeStep>,
    answers: Seq<Result<ProcessOutput, String>>,
)
    requires
        is_probe(engine, steps, answers),
    ensures
        answers.len() <= 5,
{
    lemma_probe(engine, steps, answers, answers.len() as int);
}

/// Whatever the machine answers, the status does not contradict itself.
pub proof fn law_a_status_is_consistent(
    engine: Engine,
    steps: Seq<ProbeStep>,
    answers: Seq<Result<ProcessOutput, String>>,
    i: int,
)
    requires
        is_probe(engine, steps, answers),
        0 <= i < steps.len(),
    ensures
        steps[i] matches ProbeStep::Done(status) ==> is_consistent(engine, status),
{
    lemma_probe(engine, steps, answers, i);
}

/// Every command of a probe runs inside the engine's distro.
pub proof fn law_every_probe_runs_inside_the_distro(
    engine: Engine,
    steps: Seq<ProbeStep>,
    answers: Seq<Result<ProcessOutput, String>>,
    i: int,
)
    requires
        is_probe(engine, steps, answers),
        0 <= i < steps.len(),
    ensures
        steps[i] matches ProbeStep::Run { command, .. } ==> engine::runs_inside(
            command@,
            engine.distro_name(),
        ),
{
    let distro = engine.distro_name();
    engine::law_commands_run_inside_the_distro(distro, RUNSC_PATH@, seq!["--version"@]);
    engine::law_commands_run_inside_the_distro(distro, engine::CONTAINER_CLI@, version_args());
    engine::law_commands_run_inside_the_distro(distro, engine::CONTAINER_CLI@, image_args());
    engine::law_commands_run_inside_the_distro(distro, engine::CONTAINER_CLI@, digest_args());
    if i > 0 {
        lemma_probe(engine, steps, answers, i - 1);
        assert(steps[i - 1] matches ProbeStep::Run { then, .. } && follows_probe(
            then,
            answers[i - 1],
            steps[i],
        ));
    }
}

proof fn lemma_probe_steps(
    engine: Engine,
    steps: Seq<ProbeStep>,
    answers: Seq<Result<ProcessOutput, String>>,
    i: int,
)
    requires
        is_probe(engine, steps, answers),
        0 <= i < steps.len(),
    ensures
        steps[i] matches ProbeStep::Run { then, .. } ==> {
            &&& i == stage(steps[i])
            &&& i > 0 ==> printed(answers[0]) is Some
            &&& match then.phase {
                ProbePhase::Found => true,
                ProbePhase::Version => true,
                ProbePhase::Gvisor { version } => optional(version) == printed(answers[1]),
                ProbePhase::Image { version, gvisor_available } => optional(version) == printed(
                    answers[1],
                ) && gvisor_available == ran_well(answers[2]),
                ProbePhase::Digest { version, gvisor_available } => optional(version) == printed(
                    answers[1],
                ) && gvisor_available == ran_well(answers[2]) && ran_well(answers[3]),
            }
        },
    decreases i,
{
    if i > 0 {
        lemma_probe_steps(engine, steps, answers, i - 1);
        assert(steps[i - 1] matches ProbeStep::Run { then, .. } && follows_probe(
            then,
            answers[i - 1],
            steps[i],
        ));
    }
}

/// A status is what the machine answered. The engine is there exactly when it gave a
/// version, and only then is more asked; the version shown is the one it gave when
/// asked again; gVisor is there exactly when it ran, the image exactly when the
/// engine found it, and the digest is the one that the engine gave.
#[verifier::rlimit(40)]
pub proof fn law_a_status_tells_what_was_answered(
    engine: Engine,
    steps: Seq<ProbeStep>,
    answers: Seq<Result<ProcessOutput, String>>,
    k: int,
)
    requires
        is_probe(engine, steps, answers),
        0 <= k < steps.len(),
        steps[k] is Done,
    ensures
        k > 0,
        steps[k] matches ProbeStep::Done(status) && {
            &&& status.engine_available == (printed(answers[0]) is Some)
            &&& !status.engine_available ==> k == 1 && status.engine_version is None
                && !status.gvisor_available && !status.image_present && status.image_digest is None
            &&& status.engine_available ==> {
                &&& k == if status.image_present {
                    5int
                } else {
                    4int
                }
                &&& optional(status.engine_version) == printed(answers[1])
                &&& status.gvisor_available == ran_well(answers[2])
                &&& status.image_present == ran_well(answers[3])
                &&& status.image_present ==> optional(status.image_digest) == printed(answers[4])
                &&& !status.image_present ==> status.image_digest is None
            }
            &&& text::begins_with(status.isolation@, status.engine@)
            &&& text::occurs_in(status.engine@, "'"@ + engine.distro_name() + "'"@)
        },
{
    lemma_probe_steps(engine, steps, answers, k - 1);
    lemma_probe(engine, steps, answers, k - 1);
    lemma_probe(engine, steps, answers, k);
    assert(steps[k - 1] matches ProbeStep::Run { then, .. } && follows_probe(
        then,
        answers[k - 1],
        steps[k],
    ));
    let status = steps[k]->Done_0;
    let distro = engine.distro_name();
    engine::law_a_place_is_a_container_and_a_path(distro, distro, distro);
    law_the_isolation_is_named(distro, status.engine_available, status.gvisor_available);
}

/// The words about the isolation begin with the engine and say whether it is there
/// and whether jobs run under gVisor.
#[verifier::rlimit(40)]
pub proof fn law_the_isolation_is_named(distro: Seq<char>, available: bool, gvisor: bool)
    ensures
        text::begins_with(isolation_words(distro, available, gvisor), engine_description(distro)),
        ({
            let rest = isolation_words(distro, available, gvisor).skip(
                engine_description(distro).len() as int,
            );
            &&& !available ==> text::begins_with(rest, " is not available"@)
            &&& available && gvisor ==> text::begins_with(rest, ", running jobs under gVisor"@)
            &&& available && !gvisor ==> text::begins_with(rest, " WITHOUT gVisor"@)
        }),
{
    let start = engine_description(distro);
    let none = Seq::<char>::empty();
    if !available {
        let rest = " is not available — jobs cannot run. Install the job runtime; see docs/wsl-runtime-setup.md"@;
        text::law_parts_are_found(none, start, rest);
        assert((start + rest).skip(start.len() as int) =~= rest);
        reveal_strlit(
            " is not available — jobs cannot run. Install the job runtime; see docs/wsl-runtime-setup.md",
        );
        reveal_strlit(" is not available");
        assert(rest.subrange(0, 17) =~= " is not available"@);
    } else if gvisor {
        let rest = ", running jobs under gVisor (runsc): the job's syscalls are served by the sandbox kernel, not the host's"@;
        text::law_parts_are_found(none, start, rest);
        assert((start + rest).skip(start.len() as int) =~= rest);
        reveal_strlit(
            ", running jobs under gVisor (runsc): the job's syscalls are served by the sandbox kernel, not the host's",
        );
        reveal_strlit(", running jobs under gVisor");
        assert(rest.subrange(0, 27) =~= ", running jobs under gVisor"@);
    } else {
        let rest = " WITHOUT gVisor. Jobs are refused unless the development override is set — see SPARECYCLES_ALLOW_NO_GVISOR"@;
        text::law_parts_are_found(none, start, rest);
        assert((start + rest).skip(start.len() as int) =~= rest);
        reveal_strlit(
            " WITHOUT gVisor. Jobs are refused unless the development override is set — see SPARECYCLES_ALLOW_NO_GVISOR",
        );
        reveal_strlit(" WITHOUT gVisor");
        assert(rest.subrange(0, 15) =~= " WITHOUT gVisor"@);
    }
}

/// Each question of a probe goes to the engine's own distro, and is the right one.
#[verifier::rlimit(40)]
pub proof fn law_every_probe_asks_its_question(
    then: AfterProbe,
    end: Result<ProcessOutput, String>,
    next: ProbeStep,
)
    requires
        follows_probe(then, end, next),
    ensures
        next matches ProbeStep::Run { command, then: after } ==> {
            let distro = then.engine.distro_name();
            &&& after.engine == then.engine
            &&& command@.program == "wsl"@
            &&& command@.args.take(4) == seq!["-d"@, distro, "--"@, if after.phase is Gvisor {
                "/usr/local/bin/runsc"@
            } else {
                "podman"@
            }]
            &&& command@.args.skip(4) == match after.phase {
                ProbePhase::Found => Seq::empty(),
                ProbePhase::Version => seq!["version"@, "--format"@, "{{.Server.Version}}"@],
                ProbePhase::Gvisor { .. } => seq!["--version"@],
                ProbePhase::Image { .. } => seq![
                    "image"@,
                    "inspect"@,
                    "sparecycles/blender:4.2.9"@,
                ],
                ProbePhase::Digest { .. } => seq![
                    "image"@,
                    "inspect"@,
                    "--format"@,
                    "{{.Id}}"@,
                    "sparecycles/blender:4.2.9"@,
                ],
            }
            &&& !(after.phase is Found)
        },
{
    if let ProbeStep::Run { command, then: after } = next {
        let distro = then.engine.distro_name();
        assert(command@.args.take(4) =~= seq!["-d"@, distro, "--"@, if after.phase is Gvisor {
            "/usr/local/bin/runsc"@
        } else {
            "podman"@
        }]);
        assert(command@.args.skip(4) =~= match after.phase {
            ProbePhase::Found => Seq::empty(),
            ProbePhase::Version => seq!["version"@, "--format"@, "{{.Server.Version}}"@],
            ProbePhase::Gvisor { .. } => seq!["--version"@],
            ProbePhase::Image { .. } => seq!["image"@, "inspect"@, "sparecycles/blender:4.2.9"@],
            ProbePhase::Digest { .. } => seq![
                "image"@,
                "inspect"@,
                "--format"@,
                "{{.Id}}"@,
                "sparecycles/blender:4.2.9"@,
            ],
        });
    }
}

/// Only the word `true`, in lower case and with nothing around it, opts out of gVisor.
pub proof fn law_only_the_word_opts_out(value: Seq<char>)
    ensures
        !opts_out(None),
        opts_out(Some(value)) ==> value.len() == 4 && value[0] == 't' && value[1] == 'r' && value[2]
            == 'u' && value[3] == 'e',
        opts_out(Some(seq!['t', 'r', 'u', 'e'])),
{
    reveal_strlit("true");
    assert("true"@ =~= seq!['t', 'r', 'u', 'e']);
}

} // verus!
