//! Sandboxed job execution.
//!
//! This module is the isolation boundary for work that strangers submit. It
//! drives a container engine; it does not implement isolation itself. Three
//! rules drive everything here:
//!
//!   1. gVisor is required. A job whose system calls would reach the host kernel
//!      is refused, unless a developer has explicitly opted in.
//!   2. The job gets no network, no host file system, no capabilities and no way
//!      to gain privileges. Its files arrive as a stream, not as a mount.
//!   3. The contributor's own limits win. A job states what it wants;
//!      [`EffectiveCaps::clamp`] decides what it gets, and only the clamped
//!      numbers reach the engine.

use crate::engine::{self, RUNSC_PATH};
use crate::text;
use vstd::prelude::*;

pub use crate::probe::{SandboxStatus, probe_sandbox, select_engine};
pub use crate::render::{JobOutcome, run_render_job};

verus! {

/// The pinned render image.
pub const JOB_IMAGE: &'static str = "sparecycles/blender:4.2.9";

/// Unprivileged uid and gid baked into the job image.
pub const JOB_UID_GID: &'static str = "65532:65532";

/// Hard ceiling on a job's time, whatever the contributor configured.
pub const ABSOLUTE_MAX_TIMEOUT_SECONDS: u64 = 21_600;

/// The least memory that a job is given.
pub const MIN_MEMORY_MB: u64 = 256;

/// What a render job asks for.
#[derive(Debug, Clone, Copy)]
pub struct RenderJobParams {
    pub frame: u32,
    pub resolution_x: u32,
    pub resolution_y: u32,
    pub samples: u32,
    pub requested_caps: RequestedCaps,
}

#[derive(Debug, Clone, Copy)]
pub struct RequestedCaps {
    pub cpu_cores: u32,
    pub memory_mb: u64,
    pub timeout_seconds: u64,
}

/// The contributor's own limits, from the node's local settings. These are the
/// authority: the backend never gets to raise them.
#[derive(Debug, Clone, Copy)]
pub struct ContributorLimits {
    pub max_cpu_percent: u32,
    pub max_memory_mb: u64,
    pub max_timeout_seconds: u64,
}

/// What the job gets, after clamping.
#[derive(Debug, Clone, Copy, PartialEq, Eq, Structural)]
pub struct EffectiveCaps {
    pub cpu_cores: u32,
    pub memory_mb: u64,
    pub timeout_seconds: u64,
}

pub open spec fn least(a: int, b: int) -> int {
    if a <= b {
        a
    } else {
        b
    }
}

pub open spec fn greatest(a: int, b: int) -> int {
    if a <= b {
        b
    } else {
        a
    }
}

/// `wanted` brought into the range from `low` to `high`.
pub open spec fn within(wanted: int, low: int, high: int) -> int {
    greatest(low, least(wanted, high))
}

/// The host's cores; a host that reports none is taken to have one.
pub open spec fn usable_cores(host_cores: u32) -> int {
    greatest(host_cores as int, 1)
}

/// The cores that the contributor's share of the host comes to: rounded down,
/// but never below one.
pub open spec fn allowed_cores(limits: ContributorLimits, host_cores: u32) -> int {
    greatest(usable_cores(host_cores) * least(limits.max_cpu_percent as int, 100) / 100, 1)
}

/// `caps` is what `requested` comes to under `limits` on a host with
/// `host_cores`.
pub open spec fn is_clamped(
    caps: EffectiveCaps,
    requested: RequestedCaps,
    limits: ContributorLimits,
    host_cores: u32,
) -> bool {
    &&& caps.cpu_cores == within(requested.cpu_cores as int, 1, allowed_cores(limits, host_cores))
    &&& caps.memory_mb == within(
        requested.memory_mb as int,
        MIN_MEMORY_MB as int,
        greatest(limits.max_memory_mb as int, MIN_MEMORY_MB as int),
    )
    &&& caps.timeout_seconds == within(
        requested.timeout_seconds as int,
        1,
        greatest(least(limits.max_timeout_seconds as int, ABSOLUTE_MAX_TIMEOUT_SECONDS as int), 1),
    )
}

impl EffectiveCaps {
    /// Clamps a job's request against the contributor's limits and the host's
    /// real core count.
    pub fn clamp(requested: RequestedCaps, limits: ContributorLimits, host_cores: u32) -> (caps:
        Self)
        ensures
            is_clamped(caps, requested, limits, host_cores),
    {
        let cores: u64 = if host_cores < 1 {
            1
        } else {
            host_cores as u64
        };
        let percent: u64 = if limits.max_cpu_percent > 100 {
            100
        } else {
            limits.max_cpu_percent as u64
        };
        assert(cores * percent <= cores * 100) by (nonlinear_arith)
            requires
                percent <= 100,
        ;
        assert(0 <= cores * percent) by (nonlinear_arith);
        let share: u64 = cores * percent / 100;
        let allowed: u32 = if share < 1 {
            1
        } else {
            share as u32
        };
        let cpu_cores: u32 = if requested.cpu_cores < 1 {
            1
        } else if requested.cpu_cores > allowed {
            allowed
        } else {
            requested.cpu_cores
        };
        let most_memory: u64 = if limits.max_memory_mb < MIN_MEMORY_MB {
            MIN_MEMORY_MB
        } else {
            limits.max_memory_mb
        };
        let memory_mb: u64 = if requested.memory_mb < MIN_MEMORY_MB {
            MIN_MEMORY_MB
        } else if requested.memory_mb > most_memory {
            most_memory
        } else {
            requested.memory_mb
        };
        let longest: u64 = if limits.max_timeout_seconds > ABSOLUTE_MAX_TIMEOUT_SECONDS {
            ABSOLUTE_MAX_TIMEOUT_SECONDS
        } else {
            limits.max_timeout_seconds
        };
        let wanted: u64 = if requested.timeout_seconds > longest {
            longest
        } else {
            requested.timeout_seconds
        };
        let timeout_seconds: u64 = if wanted < 1 {
            1
        } else {
            wanted
        };
        EffectiveCaps { cpu_cores, memory_mb, timeout_seconds }
    }
}

/// A job never gets more than the host has, more than the contributor allows or
/// more than it asked for, above the floors of one core, [`MIN_MEMORY_MB`] and
/// one second that every job is given. The hard ceiling on time holds whatever
/// was configured.
pub proof fn law_clamped_caps_stay_within_every_limit(
    caps: EffectiveCaps,
    requested: RequestedCaps,
    limits: ContributorLimits,
    host_cores: u32,
)
    requires
        is_clamped(caps, requested, limits, host_cores),
    ensures
        1 <= caps.cpu_cores <= usable_cores(host_cores),
        caps.cpu_cores > 1 ==> caps.cpu_cores * 100 <= host_cores * limits.max_cpu_percent,
        caps.cpu_cores > 1 ==> caps.cpu_cores <= requested.cpu_cores,
        MIN_MEMORY_MB <= caps.memory_mb,
        caps.memory_mb > MIN_MEMORY_MB ==> caps.memory_mb <= limits.max_memory_mb
            && caps.memory_mb <= requested.memory_mb,
        1 <= caps.timeout_seconds <= ABSOLUTE_MAX_TIMEOUT_SECONDS,
        caps.timeout_seconds > 1 ==> caps.timeout_seconds <= limits.max_timeout_seconds
            && caps.timeout_seconds <= requested.timeout_seconds,
{
    let cores = usable_cores(host_cores);
    let percent = least(limits.max_cpu_percent as int, 100);
    assert(cores * percent <= cores * 100) by (nonlinear_arith)
        requires
            percent <= 100,
            cores >= 1,
    ;
    if caps.cpu_cores > 1 {
        assert(cores * percent / 100 * 100 <= cores * percent);
        assert(caps.cpu_cores * 100 <= cores * percent);
        assert(cores * percent <= host_cores * limits.max_cpu_percent) by (nonlinear_arith)
            requires
                cores * percent >= 200,
                percent <= 100,
                percent <= limits.max_cpu_percent,
                cores == host_cores || (cores == 1 && host_cores == 0),
        ;
    }
}

/// A request within every limit is granted as it stands.
pub proof fn law_modest_requests_pass_through(
    caps: EffectiveCaps,
    requested: RequestedCaps,
    limits: ContributorLimits,
    host_cores: u32,
)
    requires
        is_clamped(caps, requested, limits, host_cores),
        1 <= requested.cpu_cores <= allowed_cores(limits, host_cores),
        MIN_MEMORY_MB <= requested.memory_mb <= limits.max_memory_mb,
        1 <= requested.timeout_seconds <= limits.max_timeout_seconds,
        requested.timeout_seconds <= ABSOLUTE_MAX_TIMEOUT_SECONDS,
    ensures
        caps.cpu_cores == requested.cpu_cores,
        caps.memory_mb == requested.memory_mb,
        caps.timeout_seconds == requested.timeout_seconds,
{
}

/// What a job gets, for every request. Cores: a request within the contributor's
/// share of the host is granted as it stands, and a larger one gets the whole share,
/// rounded down to whole cores; one core is the least. Memory and time: a request
/// within the limit is granted as it stands, and a larger one gets the limit, down to
/// 256 MB and one second and, for time, up to six hours.
pub proof fn law_a_job_gets_what_it_may_have(
    caps: EffectiveCaps,
    requested: RequestedCaps,
    limits: ContributorLimits,
    host_cores: u32,
    cores: int,
    percent: int,
)
    requires
        is_clamped(caps, requested, limits, host_cores),
        host_cores > 0 ==> cores == host_cores,
        host_cores == 0 ==> cores == 1,
        limits.max_cpu_percent <= 100 ==> percent == limits.max_cpu_percent,
        limits.max_cpu_percent > 100 ==> percent == 100,
    ensures
        1 <= requested.cpu_cores && requested.cpu_cores * 100 <= cores * percent ==> caps.cpu_cores
            == requested.cpu_cores,
        requested.cpu_cores * 100 >= cores * percent ==> (caps.cpu_cores + 1) * 100 > cores * percent,
        caps.cpu_cores > 1 ==> caps.cpu_cores * 100 <= cores * percent && caps.cpu_cores
            <= requested.cpu_cores,
        caps.cpu_cores >= 1,
        256 <= requested.memory_mb <= limits.max_memory_mb ==> caps.memory_mb
            == requested.memory_mb,
        256 <= limits.max_memory_mb <= requested.memory_mb ==> caps.memory_mb
            == limits.max_memory_mb,
        requested.memory_mb <= 256 || limits.max_memory_mb <= 256 ==> caps.memory_mb == 256,
        1 <= requested.timeout_seconds <= limits.max_timeout_seconds && requested.timeout_seconds
            <= 21_600 ==> caps.timeout_seconds == requested.timeout_seconds,
        1 <= limits.max_timeout_seconds <= requested.timeout_seconds && limits.max_timeout_seconds
            <= 21_600 ==> caps.timeout_seconds == limits.max_timeout_seconds,
        limits.max_timeout_seconds >= 21_600 && requested.timeout_seconds >= 21_600
            ==> caps.timeout_seconds == 21_600,
        requested.timeout_seconds == 0 || limits.max_timeout_seconds == 0 ==> caps.timeout_seconds
            == 1,
{
    assert(usable_cores(host_cores) == cores);
    assert(least(limits.max_cpu_percent as int, 100) == percent);
    let product = cores * percent;
    assert(product >= 0) by (nonlinear_arith)
        requires
            product == cores * percent,
            cores >= 1,
            percent >= 0,
    ;
    let share = product / 100;
    assert(share * 100 <= product < (share + 1) * 100);
    assert(allowed_cores(limits, host_cores) == greatest(share, 1));
}

/// A job that asks for more never gets less, and neither does one on a host whose
/// contributor allows more.
pub proof fn law_more_is_never_less(
    small: EffectiveCaps,
    large: EffectiveCaps,
    asked: RequestedCaps,
    asked_more: RequestedCaps,
    limits: ContributorLimits,
    looser: ContributorLimits,
    host_cores: u32,
    more_cores: u32,
)
    requires
        is_clamped(small, asked, limits, host_cores),
        is_clamped(large, asked_more, looser, more_cores),
        asked.cpu_cores <= asked_more.cpu_cores,
        asked.memory_mb <= asked_more.memory_mb,
        asked.timeout_seconds <= asked_more.timeout_seconds,
        limits.max_cpu_percent <= looser.max_cpu_percent,
        limits.max_memory_mb <= looser.max_memory_mb,
        limits.max_timeout_seconds <= looser.max_timeout_seconds,
        host_cores <= more_cores,
    ensures
        small.cpu_cores <= large.cpu_cores,
        small.memory_mb <= large.memory_mb,
        small.timeout_seconds <= large.timeout_seconds,
{
    let a = usable_cores(host_cores);
    let b = usable_cores(more_cores);
    let p = least(limits.max_cpu_percent as int, 100);
    let q = least(looser.max_cpu_percent as int, 100);
    assert(a * p <= b * q) by (nonlinear_arith)
        requires
            1 <= a <= b,
            0 <= p <= q,
    ;
    assert(a * p / 100 <= b * q / 100);
}

// ---------------------------------------------------------------------------
// The container's command line
// ---------------------------------------------------------------------------

/// The Blender expression that pins a render to the job's contract: Cycles on
/// the CPU with a fixed seed, no denoising and no metadata, so that the scene's
/// own settings do not decide what the buyer gets and two nodes can agree on the
/// result.
pub open spec fn render_setup(params: RenderJobParams) -> Seq<char> {
    "import bpy; s=bpy.context.scene; r=s.render; r.engine='CYCLES'; r.resolution_x="@ + text::decimal(
        params.resolution_x as nat,
    ) + "; r.resolution_y="@ + text::decimal(params.resolution_y as nat)
        + "; r.resolution_percentage=100; r.image_settings.file_format='PNG'; r.use_stamp=False; [setattr(r,a,False) for a in dir(r) if a.startswith('use_stamp')]; c=getattr(s,'cycles',None); (c and [setattr(c,'device','CPU'), setattr(c,'samples',"@
        + text::decimal(params.samples as nat)
        + "), setattr(c,'seed',0), setattr(c,'use_denoising',False)])"@
}

/// Builds the Blender setup expression. Everything put into it is an integer.
pub fn render_setup_expr(params: &RenderJobParams) -> (expr: String)
    ensures
        expr@ == render_setup(*params),
{
    let start = text::join4(
        "import bpy; s=bpy.context.scene; r=s.render; r.engine='CYCLES'; r.resolution_x=",
        &text::to_decimal(params.resolution_x as u64),
        "; r.resolution_y=",
        &text::to_decimal(params.resolution_y as u64),
    );
    text::join4(
        &start,
        "; r.resolution_percentage=100; r.image_settings.file_format='PNG'; r.use_stamp=False; [setattr(r,a,False) for a in dir(r) if a.startswith('use_stamp')]; c=getattr(s,'cycles',None); (c and [setattr(c,'device','CPU'), setattr(c,'samples',",
        &text::to_decimal(params.samples as u64),
        "), setattr(c,'seed',0), setattr(c,'use_denoising',False)])",
    )
}

/// The fixed parts of the setup expression, around its three numbers.
spec fn setup_parts() -> (Seq<char>, Seq<char>, Seq<char>, Seq<char>) {
    (
        "import bpy; s=bpy.context.scene; r=s.render; r.engine='CYCLES'; r.resolution_x="@,
        "; r.resolution_y="@,
        "; r.resolution_percentage=100; r.image_settings.file_format='PNG'; r.use_stamp=False; [setattr(r,a,False) for a in dir(r) if a.startswith('use_stamp')]; c=getattr(s,'cycles',None); (c and [setattr(c,'device','CPU'), setattr(c,'samples',"@,
        "), setattr(c,'seed',0), setattr(c,'use_denoising',False)])"@,
    )
}

proof fn lemma_setup_parts()
    ensures
        setup_parts().0.len() == 79,
        setup_parts().1.len() == 17,
        setup_parts().2.len() == 236,
        setup_parts().3.len() == 58,
        setup_parts().1[0] == ';',
        setup_parts().2[0] == ';',
        setup_parts().3[0] == ')',
{
    reveal_strlit("import bpy; s=bpy.context.scene; r=s.render; r.engine='CYCLES'; r.resolution_x=");
    reveal_strlit("; r.resolution_y=");
    reveal_strlit("; r.resolution_percentage=100; r.image_settings.file_format='PNG'; r.use_stamp=False; [setattr(r,a,False) for a in dir(r) if a.startswith('use_stamp')]; c=getattr(s,'cycles',None); (c and [setattr(c,'device','CPU'), setattr(c,'samples',");
    reveal_strlit("), setattr(c,'seed',0), setattr(c,'use_denoising',False)])");
}

/// How the fixed parts end before a number and go on behind one.
proof fn lemma_around_the_numbers()
    ensures
        setup_parts().0.skip(64) == "r.resolution_x="@,
        setup_parts().1.skip(2) == "r.resolution_y="@,
        setup_parts().2.skip(216) == "setattr(c,'samples',"@,
        setup_parts().1.take(1) == ";"@,
        setup_parts().2.take(1) == ";"@,
        setup_parts().3.take(1) == ")"@,
        "r.resolution_x="@.len() == 15,
        "r.resolution_y="@.len() == 15,
        "setattr(c,'samples',"@.len() == 20,
        ";"@.len() == 1,
        ")"@.len() == 1,
{
    lemma_setup_parts();
    reveal_strlit("r.resolution_x=");
    reveal_strlit("r.resolution_y=");
    reveal_strlit("setattr(c,'samples',");
    reveal_strlit(";");
    reveal_strlit(")");
    assert(setup_parts().0.skip(64) =~= "r.resolution_x="@) by {
        reveal_strlit("import bpy; s=bpy.context.scene; r=s.render; r.engine='CYCLES'; r.resolution_x=");
    }
    assert(setup_parts().1.skip(2) =~= "r.resolution_y="@) by {
        reveal_strlit("; r.resolution_y=");
    }
    assert(setup_parts().2.skip(216) =~= "setattr(c,'samples',"@) by {
        reveal_strlit("; r.resolution_percentage=100; r.image_settings.file_format='PNG'; r.use_stamp=False; [setattr(r,a,False) for a in dir(r) if a.startswith('use_stamp')]; c=getattr(s,'cycles',None); (c and [setattr(c,'device','CPU'), setattr(c,'samples',");
    }
    assert(setup_parts().1.take(1) =~= ";"@);
    assert(setup_parts().2.take(1) =~= ";"@);
    assert(setup_parts().3.take(1) =~= ")"@);
}

/// What stands in one of the fixed parts stands in the expression.
#[verifier::rlimit(40)]
proof fn lemma_found_in_a_part(params: RenderJobParams, part: int, at: int, word: Seq<char>)
    requires
        ({
            let parts = setup_parts();
            let fixed = if part == 0 {
                parts.0
            } else if part == 2 {
                parts.2
            } else {
                parts.3
            };
            0 <= at && at + word.len() <= fixed.len() && fixed.subrange(at, at + word.len()) == word
        }),
        part == 0 || part == 2 || part == 3,
    ensures
        text::occurs_in(render_setup(params), word),
{
    let parts = setup_parts();
    let x = text::decimal(params.resolution_x as nat);
    let y = text::decimal(params.resolution_y as nat);
    let samples = text::decimal(params.samples as nat);
    let whole = render_setup(params);
    let before = if part == 0 {
        Seq::empty()
    } else if part == 2 {
        parts.0 + x + parts.1 + y
    } else {
        parts.0 + x + parts.1 + y + parts.2 + samples
    };
    let start = before.len() as int + at;
    assert(whole.subrange(start, start + word.len()) =~= word) by {
        let fixed = if part == 0 {
            parts.0
        } else if part == 2 {
            parts.2
        } else {
            parts.3
        };
        assert forall|i: int| 0 <= i < word.len() implies whole[start + i] == word[i] by {
            assert(fixed.subrange(at, at + word.len())[i] == word[i]);
        }
    }
    assert(text::stands_at(whole, word, start));
}

/// The setup expression pins the buyer's numbers, exactly as the job gives them:
/// its resolution and its samples stand in it as the values that are set.
#[verifier::rlimit(40)]
pub proof fn law_the_jobs_numbers_are_pinned(params: RenderJobParams)
    ensures
        text::occurs_in(
            render_setup(params),
            "r.resolution_x="@ + text::decimal(params.resolution_x as nat) + ";"@,
        ),
        text::occurs_in(
            render_setup(params),
            "r.resolution_y="@ + text::decimal(params.resolution_y as nat) + ";"@,
        ),
        text::occurs_in(
            render_setup(params),
            "setattr(c,'samples',"@ + text::decimal(params.samples as nat) + ")"@,
        ),
{
    let parts = setup_parts();
    let x = text::decimal(params.resolution_x as nat);
    let y = text::decimal(params.resolution_y as nat);
    let samples = text::decimal(params.samples as nat);
    let whole = render_setup(params);
    lemma_setup_parts();
    lemma_around_the_numbers();
    assert(parts.0 =~= parts.0.take(64) + parts.0.skip(64));
    assert(parts.1 =~= parts.1.take(2) + parts.1.skip(2));
    assert(parts.1 =~= parts.1.take(1) + parts.1.skip(1));
    assert(parts.2 =~= parts.2.take(216) + parts.2.skip(216));
    assert(parts.2 =~= parts.2.take(1) + parts.2.skip(1));
    assert(parts.3 =~= parts.3.take(1) + parts.3.skip(1));
    let width = "r.resolution_x="@ + x + ";"@;
    let height = "r.resolution_y="@ + y + ";"@;
    let count = "setattr(c,'samples',"@ + samples + ")"@;
    assert(whole =~= parts.0.take(64) + width + (parts.1.skip(1) + y + parts.2 + samples + parts.3));
    text::law_parts_are_found(
        parts.0.take(64),
        width,
        parts.1.skip(1) + y + parts.2 + samples + parts.3,
    );
    assert(whole =~= (parts.0 + x + parts.1.take(2)) + height + (parts.2.skip(1) + samples + parts.3));
    text::law_parts_are_found(
        parts.0 + x + parts.1.take(2),
        height,
        parts.2.skip(1) + samples + parts.3,
    );
    assert(whole =~= (parts.0 + x + parts.1 + y + parts.2.take(216)) + count + parts.3.skip(1));
    text::law_parts_are_found(
        parts.0 + x + parts.1 + y + parts.2.take(216),
        count,
        parts.3.skip(1),
    );
}

/// Every job is rendered by one method: Cycles on the CPU, at full resolution, as a
/// PNG without stamps, with a fixed seed and no denoising. Apart from the digits of
/// its three numbers the expression has one length, so that nothing else finds room
/// in it, and nothing else of the job enters it.
#[verifier::rlimit(40)]
pub proof fn law_every_render_is_set_up_alike(params: RenderJobParams, other: RenderJobParams)
    ensures
        text::begins_with(render_setup(params), "import bpy; "@),
        text::occurs_in(render_setup(params), "r.engine='CYCLES'; "@),
        text::occurs_in(render_setup(params), "; r.resolution_percentage=100; "@),
        text::occurs_in(render_setup(params), "r.image_settings.file_format='PNG'; "@),
        text::occurs_in(render_setup(params), "r.use_stamp=False; "@),
        text::occurs_in(render_setup(params), "[setattr(r,a,False) for a in dir(r) if a.startswith('use_stamp')]"@),
        text::occurs_in(render_setup(params), "c=getattr(s,'cycles',None)"@),
        text::occurs_in(render_setup(params), "setattr(c,'device','CPU')"@),
        text::occurs_in(render_setup(params), "setattr(c,'seed',0)"@),
        text::occurs_in(render_setup(params), "setattr(c,'use_denoising',False)"@),
        render_setup(params).len() == 390 + text::decimal(params.resolution_x as nat).len()
            + text::decimal(params.resolution_y as nat).len() + text::decimal(
            params.samples as nat,
        ).len(),
        params.resolution_x == other.resolution_x && params.resolution_y == other.resolution_y
            && params.samples == other.samples ==> render_setup(params) == render_setup(other),
{
    let parts = setup_parts();
    lemma_setup_parts();
    assert(parts.0.subrange(0, 12) =~= "import bpy; "@ && "import bpy; "@.len() == 12) by {
        reveal_strlit("import bpy; s=bpy.context.scene; r=s.render; r.engine='CYCLES'; r.resolution_x=");
        reveal_strlit("import bpy; ");
    }
    assert(render_setup(params).subrange(0, 12) =~= parts.0.subrange(0, 12));
    assert(parts.0.subrange(45, 64) =~= "r.engine='CYCLES'; "@
        && "r.engine='CYCLES'; "@.len() == 19) by {
        reveal_strlit("import bpy; s=bpy.context.scene; r=s.render; r.engine='CYCLES'; r.resolution_x=");
        reveal_strlit("r.engine='CYCLES'; ");
    }
    lemma_found_in_a_part(params, 0, 45, "r.engine='CYCLES'; "@);
    assert(parts.2.subrange(0, 31) =~= "; r.resolution_percentage=100; "@
        && "; r.resolution_percentage=100; "@.len() == 31) by {
        reveal_strlit("; r.resolution_percentage=100; r.image_settings.file_format='PNG'; r.use_stamp=False; [setattr(r,a,False) for a in dir(r) if a.startswith('use_stamp')]; c=getattr(s,'cycles',None); (c and [setattr(c,'device','CPU'), setattr(c,'samples',");
        reveal_strlit("; r.resolution_percentage=100; ");
    }
    lemma_found_in_a_part(params, 2, 0, "; r.resolution_percentage=100; "@);
    assert(parts.2.subrange(31, 67) =~= "r.image_settings.file_format='PNG'; "@
        && "r.image_settings.file_format='PNG'; "@.len() == 36) by {
        reveal_strlit("; r.resolution_percentage=100; r.image_settings.file_format='PNG'; r.use_stamp=False; [setattr(r,a,False) for a in dir(r) if a.startswith('use_stamp')]; c=getattr(s,'cycles',None); (c and [setattr(c,'device','CPU'), setattr(c,'samples',");
        reveal_strlit("r.image_settings.file_format='PNG'; ");
    }
    lemma_found_in_a_part(params, 2, 31, "r.image_settings.file_format='PNG'; "@);
    assert(parts.2.subrange(67, 86) =~= "r.use_stamp=False; "@
        && "r.use_stamp=False; "@.len() == 19) by {
        reveal_strlit("; r.resolution_percentage=100; r.image_settings.file_format='PNG'; r.use_stamp=False; [setattr(r,a,False) for a in dir(r) if a.startswith('use_stamp')]; c=getattr(s,'cycles',None); (c and [setattr(c,'device','CPU'), setattr(c,'samples',");
        reveal_strlit("r.use_stamp=False; ");
    }
    lemma_found_in_a_part(params, 2, 67, "r.use_stamp=False; "@);
    assert(parts.2.subrange(86, 151) =~= "[setattr(r,a,False) for a in dir(r) if a.startswith('use_stamp')]"@
        && "[setattr(r,a,False) for a in dir(r) if a.startswith('use_stamp')]"@.len() == 65) by {
        reveal_strlit("; r.resolution_percentage=100; r.image_settings.file_format='PNG'; r.use_stamp=False; [setattr(r,a,False) for a in dir(r) if a.startswith('use_stamp')]; c=getattr(s,'cycles',None); (c and [setattr(c,'device','CPU'), setattr(c,'samples',");
        reveal_strlit("[setattr(r,a,False) for a in dir(r) if a.startswith('use_stamp')]");
    }
    lemma_found_in_a_part(params, 2, 86, "[setattr(r,a,False) for a in dir(r) if a.startswith('use_stamp')]"@);
    assert(parts.2.subrange(153, 179) =~= "c=getattr(s,'cycles',None)"@
        && "c=getattr(s,'cycles',None)"@.len() == 26) by {
        reveal_strlit("; r.resolution_percentage=100; r.image_settings.file_format='PNG'; r.use_stamp=False; [setattr(r,a,False) for a in dir(r) if a.startswith('use_stamp')]; c=getattr(s,'cycles',None); (c and [setattr(c,'device','CPU'), setattr(c,'samples',");
        reveal_strlit("c=getattr(s,'cycles',None)");
    }
    lemma_found_in_a_part(params, 2, 153, "c=getattr(s,'cycles',None)"@);
    assert(parts.2.subrange(189, 214) =~= "setattr(c,'device','CPU')"@
        && "setattr(c,'device','CPU')"@.len() == 25) by {
        reveal_strlit("; r.resolution_percentage=100; r.image_settings.file_format='PNG'; r.use_stamp=False; [setattr(r,a,False) for a in dir(r) if a.startswith('use_stamp')]; c=getattr(s,'cycles',None); (c and [setattr(c,'device','CPU'), setattr(c,'samples',");
        reveal_strlit("setattr(c,'device','CPU')");
    }
    lemma_found_in_a_part(params, 2, 189, "setattr(c,'device','CPU')"@);
    assert(parts.3.subrange(3, 22) =~= "setattr(c,'seed',0)"@
        && "setattr(c,'seed',0)"@.len() == 19) by {
        reveal_strlit("), setattr(c,'seed',0), setattr(c,'use_denoising',False)])");
        reveal_strlit("setattr(c,'seed',0)");
    }
    lemma_found_in_a_part(params, 3, 3, "setattr(c,'seed',0)"@);
    assert(parts.3.subrange(24, 56) =~= "setattr(c,'use_denoising',False)"@
        && "setattr(c,'use_denoising',False)"@.len() == 32) by {
        reveal_strlit("), setattr(c,'seed',0), setattr(c,'use_denoising',False)])");
        reveal_strlit("setattr(c,'use_denoising',False)");
    }
    lemma_found_in_a_part(params, 3, 24, "setattr(c,'use_denoising',False)"@);
}

/// Two jobs with different resolutions or samples are set up differently.
pub proof fn law_different_jobs_are_set_up_differently(a: RenderJobParams, b: RenderJobParams)
    requires
        render_setup(a) == render_setup(b),
    ensures
        a.resolution_x == b.resolution_x,
        a.resolution_y == b.resolution_y,
        a.samples == b.samples,
{
    let parts = setup_parts();
    lemma_setup_parts();
    let a_end = parts.2 + (text::decimal(a.samples as nat) + parts.3);
    let b_end = parts.2 + (text::decimal(b.samples as nat) + parts.3);
    let a_rest = parts.1 + (text::decimal(a.resolution_y as nat) + a_end);
    let b_rest = parts.1 + (text::decimal(b.resolution_y as nat) + b_end);
    lemma_setup_nested(a);
    lemma_setup_nested(b);
    lemma_number_behind(parts.0, a.resolution_x as nat, b.resolution_x as nat, a_rest, b_rest);
    lemma_number_behind(parts.1, a.resolution_y as nat, b.resolution_y as nat, a_end, b_end);
    lemma_number_behind(parts.2, a.samples as nat, b.samples as nat, parts.3, parts.3);
}

#[verifier::rlimit(40)]
proof fn lemma_setup_nested(params: RenderJobParams)
    ensures
        ({
            let parts = setup_parts();
            let end = parts.2 + (text::decimal(params.samples as nat) + parts.3);
            let rest = parts.1 + (text::decimal(params.resolution_y as nat) + end);
            render_setup(params) == parts.0 + (text::decimal(params.resolution_x as nat) + rest)
        }),
{
    let parts = setup_parts();
    let x = text::decimal(params.resolution_x as nat);
    let y = text::decimal(params.resolution_y as nat);
    let n = text::decimal(params.samples as nat);
    assert(parts.0 + x + parts.1 + y + parts.2 + n + parts.3 =~= parts.0 + (x + (parts.1 + (y + (
    parts.2 + (n + parts.3))))));
}

/// The same text in front, then a number, then what is no digit: the numbers are the
/// same, and so is the rest.
proof fn lemma_number_behind(
    front: Seq<char>,
    a: nat,
    b: nat,
    a_rest: Seq<char>,
    b_rest: Seq<char>,
)
    requires
        front + (text::decimal(a) + a_rest) == front + (text::decimal(b) + b_rest),
        a_rest.len() > 0 && b_rest.len() > 0,
        !(48 <= a_rest[0] as int <= 57),
        !(48 <= b_rest[0] as int <= 57),
    ensures
        a == b,
        a_rest == b_rest,
{
    let left = text::decimal(a) + a_rest;
    let right = text::decimal(b) + b_rest;
    assert((front + left).skip(front.len() as int) =~= left);
    assert((front + right).skip(front.len() as int) =~= right);
    lemma_same_digits(a, b, a_rest, b_rest);
}

/// A number is read off the front of a text up to what is no digit.
proof fn lemma_same_digits(a: nat, b: nat, a_rest: Seq<char>, b_rest: Seq<char>)
    requires
        text::decimal(a) + a_rest == text::decimal(b) + b_rest,
        a_rest.len() > 0 && b_rest.len() > 0,
        !(48 <= a_rest[0] as int <= 57),
        !(48 <= b_rest[0] as int <= 57),
    ensures
        a == b,
        a_rest == b_rest,
{
    let x = text::decimal(a);
    let y = text::decimal(b);
    let left = x + a_rest;
    let right = y + b_rest;
    text::law_decimal_text_is_its_number(a);
    text::law_decimal_text_is_its_number(b);
    if x.len() < y.len() {
        assert(left[x.len() as int] == a_rest[0]);
        assert(right[x.len() as int] == y[x.len() as int]);
    } else if y.len() < x.len() {
        assert(right[y.len() as int] == b_rest[0]);
        assert(left[y.len() as int] == x[y.len() as int]);
    }
    assert(left.take(x.len() as int) =~= x);
    assert(right.take(y.len() as int) =~= y);
    assert(left.skip(x.len() as int) =~= a_rest);
    assert(right.skip(y.len() as int) =~= b_rest);
}

/// The part of a container's command line that the engine reads.
pub open spec fn engine_args(name: Seq<char>, caps: EffectiveCaps, use_gvisor: bool) -> Seq<
    Seq<char>,
> {
    seq!["create"@, "--name="@ + name] + (if use_gvisor {
        seq!["--runtime="@ + RUNSC_PATH@]
    } else {
        Seq::empty()
    }) + seq![
        "--network=none"@,
        "--read-only"@,
        "--tmpfs"@,
        "/tmp:rw,noexec,nosuid,size=512m"@,
        "--mount"@,
        "type=volume,dst=/work"@,
        "--cpus="@ + text::decimal(caps.cpu_cores as nat),
        "--memory="@ + text::decimal(caps.memory_mb as nat) + "m"@,
        "--memory-swap="@ + text::decimal(caps.memory_mb as nat) + "m"@,
        "--pids-limit=512"@,
        "--cap-drop=ALL"@,
        "--security-opt=no-new-privileges"@,
        "--user="@ + JOB_UID_GID@,
        JOB_IMAGE@,
    ]
}

/// The part behind the image, which Blender reads. Scripts embedded in the scene
/// stay off: nothing here turns their execution on.
pub open spec fn blender_args(
    input_file_name: Seq<char>,
    output_prefix: Seq<char>,
    params: RenderJobParams,
) -> Seq<Seq<char>> {
    seq![
        "-b"@,
        "/work/"@ + input_file_name,
        "--python-expr"@,
        render_setup(params),
        "-o"@,
        "/work/"@ + output_prefix,
        "-F"@,
        "PNG"@,
        "-f"@,
        text::decimal(params.frame as nat),
    ]
}

/// The whole argument list that creates a job's container.
pub open spec fn container_args(
    name: Seq<char>,
    input_file_name: Seq<char>,
    output_prefix: Seq<char>,
    params: RenderJobParams,
    caps: EffectiveCaps,
    use_gvisor: bool,
) -> Seq<Seq<char>> {
    engine_args(name, caps, use_gvisor) + blender_args(input_file_name, output_prefix, params)
}

/// Builds the argument list that creates a job's container.
///
/// It is `create` and not `run`: the container is started separately, so that
/// its output can be copied out before it is removed. The work area is an
/// anonymous volume, never a directory of the host.
pub fn build_container_args(
    container_name: &str,
    input_file_name: &str,
    output_prefix: &str,
    params: &RenderJobParams,
    caps: EffectiveCaps,
    use_gvisor: bool,
) -> (args: Vec<String>)
    ensures
        text::texts(args@) == container_args(
            container_name@,
            input_file_name@,
            output_prefix@,
            *params,
            caps,
            use_gvisor,
        ),
{
    let mut args: Vec<String> = Vec::new();
    args.push("create".to_owned());
    args.push(text::join2("--name=", container_name));

    // The flags below are the whole boundary only when a developer has opted out
    // of gVisor.
    if use_gvisor {
        args.push(engine::gvisor_runtime_flag());
    }

    // No network stack at all.
    args.push("--network=none".to_owned());

    // Nothing on the image is writable but the work volume and a small tmpfs.
    args.push("--read-only".to_owned());
    args.push("--tmpfs".to_owned());
    args.push("/tmp:rw,noexec,nosuid,size=512m".to_owned());
    args.push("--mount".to_owned());
    args.push("type=volume,dst=/work".to_owned());

    // Resource ceilings, enforced by cgroups.
    let memory = text::to_decimal(caps.memory_mb);
    args.push(text::join2("--cpus=", &text::to_decimal(caps.cpu_cores as u64)));
    args.push(text::join3("--memory=", &memory, "m"));
    args.push(text::join3("--memory-swap=", &memory, "m"));
    args.push("--pids-limit=512".to_owned());

    // No privileges, no way to gain any, an unprivileged user.
    args.push("--cap-drop=ALL".to_owned());
    args.push("--security-opt=no-new-privileges".to_owned());
    args.push(text::join2("--user=", JOB_UID_GID));

    args.push(JOB_IMAGE.to_owned());

    // Blender's own arguments.
    args.push("-b".to_owned());
    args.push(text::join2("/work/", input_file_name));
    args.push("--python-expr".to_owned());
    args.push(render_setup_expr(params));
    args.push("-o".to_owned());
    args.push(text::join2("/work/", output_prefix));
    args.push("-F".to_owned());
    args.push("PNG".to_owned());
    args.push("-f".to_owned());
    args.push(text::to_decimal(params.frame as u64));

    assert(text::texts(args@) =~= container_args(
        container_name@,
        input_file_name@,
        output_prefix@,
        *params,
        caps,
        use_gvisor,
    ));
    args
}

} // verus!
