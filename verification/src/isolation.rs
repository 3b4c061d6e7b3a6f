//! What holds of every container command line, whatever a job or the backend
//! puts into it.

use crate::engine::RUNSC_PATH;
use crate::sandbox::{
    EffectiveCaps, JOB_IMAGE, JOB_UID_GID, RenderJobParams, blender_args, container_args,
    engine_args, law_every_render_is_set_up_alike, law_the_jobs_numbers_are_pinned, render_setup,
};
use crate::text;
use vstd::prelude::*;

verus! {

/// The argument is a long flag: it begins with two dashes.
pub open spec fn is_long_flag(arg: Seq<char>) -> bool {
    text::begins_with(arg, "--"@)
}

/// The name of a flag: what stands before the first equals sign.
pub open spec fn flag_of(arg: Seq<char>) -> Seq<char> {
    arg.take(text::first_at(arg, '=') as int)
}

/// The flags that were chosen on purpose. Any other would widen the sandbox.
pub open spec fn is_allowed_flag(flag: Seq<char>) -> bool {
    ||| flag == "--name"@
    ||| flag == "--runtime"@
    ||| flag == "--network"@
    ||| flag == "--read-only"@
    ||| flag == "--tmpfs"@
    ||| flag == "--mount"@
    ||| flag == "--cpus"@
    ||| flag == "--memory"@
    ||| flag == "--memory-swap"@
    ||| flag == "--pids-limit"@
    ||| flag == "--cap-drop"@
    ||| flag == "--security-opt"@
    ||| flag == "--user"@
    ||| flag == "--python-expr"@
}

/// A flag without an equals sign in its name, followed by one, has that name.
proof fn lemma_flag_with_value(flag: Seq<char>, rest: Seq<char>)
    requires
        forall|i: int| 0 <= i < flag.len() ==> flag[i] != '=',
        rest.len() > 0,
        rest[0] == '=',
    ensures
        flag_of(flag + rest) == flag,
{
    text::lemma_first_at_unique(flag + rest, '=', flag.len());
    assert((flag + rest).take(flag.len() as int) =~= flag);
}

/// A flag without an equals sign is its own name.
proof fn lemma_flag_alone(flag: Seq<char>)
    requires
        forall|i: int| 0 <= i < flag.len() ==> flag[i] != '=',
    ensures
        flag_of(flag) == flag,
{
    text::lemma_first_at_unique(flag, '=', flag.len());
    assert(flag.take(flag.len() as int) =~= flag);
}

/// An argument that does not begin with a dash is no long flag.
proof fn lemma_no_flag(arg: Seq<char>)
    requires
        arg.len() > 0 ==> arg[0] != '-',
    ensures
        !is_long_flag(arg),
{
    reveal_strlit("--");
    if is_long_flag(arg) {
        assert(arg.subrange(0, 2)[0] == arg[0]);
    }
}

/// What an argument of the engine's part can be: a flag with its one value, or
/// no flag at all.
pub open spec fn is_engine_arg(arg: Seq<char>, name: Seq<char>, caps: EffectiveCaps, use_gvisor: bool) -> bool {
    ||| !is_long_flag(arg)
    ||| arg == "--name="@ + name && flag_of(arg) == "--name"@
    ||| use_gvisor && arg == "--runtime="@ + RUNSC_PATH@ && flag_of(arg) == "--runtime"@
    ||| arg == "--network=none"@ && flag_of(arg) == "--network"@
    ||| arg == "--read-only"@ && flag_of(arg) == "--read-only"@
    ||| arg == "--tmpfs"@ && flag_of(arg) == "--tmpfs"@
    ||| arg == "--mount"@ && flag_of(arg) == "--mount"@
    ||| arg == "--cpus="@ + text::decimal(caps.cpu_cores as nat) && flag_of(arg) == "--cpus"@
    ||| arg == "--memory="@ + text::decimal(caps.memory_mb as nat) + "m"@ && flag_of(arg)
        == "--memory"@
    ||| arg == "--memory-swap="@ + text::decimal(caps.memory_mb as nat) + "m"@ && flag_of(arg)
        == "--memory-swap"@
    ||| arg == "--pids-limit=512"@ && flag_of(arg) == "--pids-limit"@
    ||| arg == "--cap-drop=ALL"@ && flag_of(arg) == "--cap-drop"@
    ||| arg == "--security-opt=no-new-privileges"@ && flag_of(arg) == "--security-opt"@
    ||| arg == "--user="@ + JOB_UID_GID@ && flag_of(arg) == "--user"@
    ||| arg == "--python-expr"@ && flag_of(arg) == "--python-expr"@
}

proof fn lemma_value_flags(name: Seq<char>, cpus: Seq<char>, memory: Seq<char>)
    ensures
        flag_of("--name="@ + name) == "--name"@,
        flag_of("--runtime="@ + RUNSC_PATH@) == "--runtime"@,
        flag_of("--cpus="@ + cpus) == "--cpus"@,
        flag_of("--memory="@ + memory + "m"@) == "--memory"@,
        flag_of("--memory-swap="@ + memory + "m"@) == "--memory-swap"@,
        flag_of("--user="@ + JOB_UID_GID@) == "--user"@,
{
    reveal_strlit("--name=");
    reveal_strlit("--name");
    reveal_strlit("--runtime=");
    reveal_strlit("--runtime");
    reveal_strlit("--cpus=");
    reveal_strlit("--cpus");
    reveal_strlit("--memory=");
    reveal_strlit("--memory");
    reveal_strlit("--memory-swap=");
    reveal_strlit("--memory-swap");
    reveal_strlit("--user=");
    reveal_strlit("--user");
    let eq = seq!['='];
    assert("--name="@ + name =~= "--name"@ + (eq + name));
    lemma_flag_with_value("--name"@, eq + name);
    assert("--runtime="@ + RUNSC_PATH@ =~= "--runtime"@ + (eq + RUNSC_PATH@));
    lemma_flag_with_value("--runtime"@, eq + RUNSC_PATH@);
    assert("--cpus="@ + cpus =~= "--cpus"@ + (eq + cpus));
    lemma_flag_with_value("--cpus"@, eq + cpus);
    assert("--memory="@ + memory + "m"@ =~= "--memory"@ + (eq + memory + "m"@));
    lemma_flag_with_value("--memory"@, eq + memory + "m"@);
    assert("--memory-swap="@ + memory + "m"@ =~= "--memory-swap"@ + (eq + memory + "m"@));
    lemma_flag_with_value("--memory-swap"@, eq + memory + "m"@);
    assert("--user="@ + JOB_UID_GID@ =~= "--user"@ + (eq + JOB_UID_GID@));
    lemma_flag_with_value("--user"@, eq + JOB_UID_GID@);
}

proof fn lemma_fixed_flags()
    ensures
        flag_of("--network=none"@) == "--network"@,
        flag_of("--read-only"@) == "--read-only"@,
        flag_of("--tmpfs"@) == "--tmpfs"@,
        flag_of("--mount"@) == "--mount"@,
        flag_of("--pids-limit=512"@) == "--pids-limit"@,
        flag_of("--cap-drop=ALL"@) == "--cap-drop"@,
        flag_of("--security-opt=no-new-privileges"@) == "--security-opt"@,
        flag_of("--python-expr"@) == "--python-expr"@,
{
    reveal_strlit("--network=none");
    reveal_strlit("--network");
    reveal_strlit("--read-only");
    reveal_strlit("--tmpfs");
    reveal_strlit("--mount");
    reveal_strlit("--pids-limit=512");
    reveal_strlit("--pids-limit");
    reveal_strlit("--cap-drop=ALL");
    reveal_strlit("--cap-drop");
    reveal_strlit("--security-opt=no-new-privileges");
    reveal_strlit("--security-opt");
    reveal_strlit("--python-expr");
    reveal_strlit("=none");
    reveal_strlit("=512");
    reveal_strlit("=ALL");
    reveal_strlit("=no-new-privileges");
    assert("--network=none"@ =~= "--network"@ + "=none"@);
    lemma_flag_with_value("--network"@, "=none"@);
    lemma_flag_alone("--read-only"@);
    lemma_flag_alone("--tmpfs"@);
    lemma_flag_alone("--mount"@);
    assert("--pids-limit=512"@ =~= "--pids-limit"@ + "=512"@);
    lemma_flag_with_value("--pids-limit"@, "=512"@);
    assert("--cap-drop=ALL"@ =~= "--cap-drop"@ + "=ALL"@);
    lemma_flag_with_value("--cap-drop"@, "=ALL"@);
    assert("--security-opt=no-new-privileges"@ =~= "--security-opt"@ + "=no-new-privileges"@);
    lemma_flag_with_value("--security-opt"@, "=no-new-privileges"@);
    lemma_flag_alone("--python-expr"@);
}

proof fn lemma_plain_args(input: Seq<char>, prefix: Seq<char>, params: RenderJobParams)
    ensures
        !is_long_flag("create"@),
        !is_long_flag("/tmp:rw,noexec,nosuid,size=512m"@),
        !is_long_flag("type=volume,dst=/work"@),
        !is_long_flag(JOB_IMAGE@),
        !is_long_flag("-b"@),
        !is_long_flag("/work/"@ + input),
        !is_long_flag(render_setup(params)),
        !is_long_flag("-o"@),
        !is_long_flag("/work/"@ + prefix),
        !is_long_flag("-F"@),
        !is_long_flag("PNG"@),
        !is_long_flag("-f"@),
        !is_long_flag(text::decimal(params.frame as nat)),
{
    reveal_strlit("--");
    reveal_strlit("create");
    reveal_strlit("/tmp:rw,noexec,nosuid,size=512m");
    reveal_strlit("type=volume,dst=/work");
    reveal_strlit("sparecycles/blender:4.2.9");
    reveal_strlit("-b");
    reveal_strlit("-o");
    reveal_strlit("-F");
    reveal_strlit("-f");
    reveal_strlit("PNG");
    reveal_strlit("/work/");
    reveal_strlit(
        "import bpy; s=bpy.context.scene; r=s.render; r.engine='CYCLES'; r.resolution_x=",
    );
    lemma_no_flag("create"@);
    lemma_no_flag("/tmp:rw,noexec,nosuid,size=512m"@);
    lemma_no_flag("type=volume,dst=/work"@);
    lemma_no_flag(JOB_IMAGE@);
    lemma_no_flag("/work/"@ + input);
    lemma_no_flag("/work/"@ + prefix);
    lemma_no_flag("PNG"@);
    assert(render_setup(params)[0] == 'i');
    lemma_no_flag(render_setup(params));
    text::lemma_decimal_digits(params.frame as nat);
    assert(text::decimal(params.frame as nat)[0] != '-');
    lemma_no_flag(text::decimal(params.frame as nat));
    assert("-b"@ != "--"@ && "-o"@ != "--"@ && "-F"@ != "--"@ && "-f"@ != "--"@) by {
        assert("-b"@[1] != "--"@[1]);
        assert("-o"@[1] != "--"@[1]);
        assert("-F"@[1] != "--"@[1]);
        assert("-f"@[1] != "--"@[1]);
    }
    assert("-b"@.subrange(0, 2) =~= "-b"@);
    assert("-o"@.subrange(0, 2) =~= "-o"@);
    assert("-F"@.subrange(0, 2) =~= "-F"@);
    assert("-f"@.subrange(0, 2) =~= "-f"@);
}

/// Every argument is one of those that were chosen on purpose.
proof fn lemma_container_args(
    name: Seq<char>,
    input: Seq<char>,
    prefix: Seq<char>,
    params: RenderJobParams,
    caps: EffectiveCaps,
    use_gvisor: bool,
)
    ensures
        forall|i: int|
            0 <= i < container_args(name, input, prefix, params, caps, use_gvisor).len()
                ==> is_engine_arg(
                #[trigger] container_args(name, input, prefix, params, caps, use_gvisor)[i],
                name,
                caps,
                use_gvisor,
            ),
{
    lemma_value_flags(
        name,
        text::decimal(caps.cpu_cores as nat),
        text::decimal(caps.memory_mb as nat),
    );
    lemma_fixed_flags();
    lemma_plain_args(input, prefix, params);
}

/// Every long flag on a container's command line is one that was chosen on
/// purpose, whatever name, file names and parameters the job comes with.
pub proof fn law_only_allowed_flags(
    name: Seq<char>,
    input: Seq<char>,
    prefix: Seq<char>,
    params: RenderJobParams,
    caps: EffectiveCaps,
    use_gvisor: bool,
    i: int,
)
    requires
        0 <= i < container_args(name, input, prefix, params, caps, use_gvisor).len(),
        is_long_flag(container_args(name, input, prefix, params, caps, use_gvisor)[i]),
    ensures
        is_allowed_flag(flag_of(container_args(name, input, prefix, params, caps, use_gvisor)[i])),
{
    lemma_container_args(name, input, prefix, params, caps, use_gvisor);
}

/// Length and third character of each flag's name: no two flags share both.
proof fn lemma_flags_differ()
    ensures
        "--name"@.len() == 6 && "--name"@[2] == 'n',
        "--runtime"@.len() == 9 && "--runtime"@[2] == 'r',
        "--network"@.len() == 9 && "--network"@[2] == 'n',
        "--read-only"@.len() == 11 && "--read-only"@[2] == 'r',
        "--tmpfs"@.len() == 7 && "--tmpfs"@[2] == 't',
        "--mount"@.len() == 7 && "--mount"@[2] == 'm',
        "--cpus"@.len() == 6 && "--cpus"@[2] == 'c',
        "--memory"@.len() == 8 && "--memory"@[2] == 'm',
        "--memory-swap"@.len() == 13 && "--memory-swap"@[2] == 'm',
        "--pids-limit"@.len() == 12 && "--pids-limit"@[2] == 'p',
        "--cap-drop"@.len() == 10 && "--cap-drop"@[2] == 'c',
        "--security-opt"@.len() == 14 && "--security-opt"@[2] == 's',
        "--user"@.len() == 6 && "--user"@[2] == 'u',
        "--python-expr"@.len() == 13 && "--python-expr"@[2] == 'p',
{
    reveal_strlit("--name");
    reveal_strlit("--runtime");
    reveal_strlit("--network");
    reveal_strlit("--read-only");
    reveal_strlit("--tmpfs");
    reveal_strlit("--mount");
    reveal_strlit("--cpus");
    reveal_strlit("--memory");
    reveal_strlit("--memory-swap");
    reveal_strlit("--pids-limit");
    reveal_strlit("--cap-drop");
    reveal_strlit("--security-opt");
    reveal_strlit("--user");
    reveal_strlit("--python-expr");
}

/// The isolation flags cannot be given another value by anything that a job or
/// the backend supplies: each argument with such a flag is the one that was
/// meant. The runtime is named, by gVisor's path, exactly when gVisor is used.
pub proof fn law_isolation_cannot_be_loosened(
    name: Seq<char>,
    input: Seq<char>,
    prefix: Seq<char>,
    params: RenderJobParams,
    caps: EffectiveCaps,
    use_gvisor: bool,
    i: int,
)
    requires
        0 <= i < container_args(name, input, prefix, params, caps, use_gvisor).len(),
        is_long_flag(container_args(name, input, prefix, params, caps, use_gvisor)[i]),
    ensures
        ({
            let arg = container_args(name, input, prefix, params, caps, use_gvisor)[i];
            &&& flag_of(arg) == "--network"@ ==> arg == "--network=none"@
            &&& flag_of(arg) == "--cap-drop"@ ==> arg == "--cap-drop=ALL"@
            &&& flag_of(arg) == "--security-opt"@ ==> arg == "--security-opt=no-new-privileges"@
            &&& flag_of(arg) == "--user"@ ==> arg == "--user="@ + JOB_UID_GID@
            &&& flag_of(arg) == "--runtime"@ ==> use_gvisor && arg == "--runtime="@ + RUNSC_PATH@
            &&& flag_of(arg) == "--name"@ ==> arg == "--name="@ + name
            &&& flag_of(arg) == "--cpus"@ ==> arg == "--cpus="@ + text::decimal(
                caps.cpu_cores as nat,
            )
            &&& flag_of(arg) == "--memory"@ ==> arg == "--memory="@ + text::decimal(
                caps.memory_mb as nat,
            ) + "m"@
            &&& flag_of(arg) == "--memory-swap"@ ==> arg == "--memory-swap="@ + text::decimal(
                caps.memory_mb as nat,
            ) + "m"@
            &&& flag_of(arg) == "--pids-limit"@ ==> arg == "--pids-limit=512"@
        }),
{
    let arg = container_args(name, input, prefix, params, caps, use_gvisor)[i];
    lemma_container_args(name, input, prefix, params, caps, use_gvisor);
    lemma_flags_differ();
    assert(is_allowed_flag(flag_of(arg)));
}

/// Every isolation flag is there, for every job.
pub proof fn law_isolation_flags_are_present(
    name: Seq<char>,
    input: Seq<char>,
    prefix: Seq<char>,
    params: RenderJobParams,
    caps: EffectiveCaps,
    use_gvisor: bool,
)
    ensures
        ({
            let args = container_args(name, input, prefix, params, caps, use_gvisor);
            &&& args.contains("--network=none"@)
            &&& args.contains("--read-only"@)
            &&& args.contains("--cap-drop=ALL"@)
            &&& args.contains("--security-opt=no-new-privileges"@)
            &&& args.contains("--user="@ + JOB_UID_GID@)
            &&& args.contains("--pids-limit=512"@)
            &&& args.contains("--cpus="@ + text::decimal(caps.cpu_cores as nat))
            &&& args.contains("--memory="@ + text::decimal(caps.memory_mb as nat) + "m"@)
            &&& args.contains("--memory-swap="@ + text::decimal(caps.memory_mb as nat) + "m"@)
            &&& use_gvisor ==> args.contains("--runtime="@ + RUNSC_PATH@)
        }),
{
    let args = container_args(name, input, prefix, params, caps, use_gvisor);
    let k: int = if use_gvisor {
        3
    } else {
        2
    };
    assert(args[k] == "--network=none"@);
    assert(args[k + 1] == "--read-only"@);
    assert(args[k + 6] == "--cpus="@ + text::decimal(caps.cpu_cores as nat));
    assert(args[k + 7] == "--memory="@ + text::decimal(caps.memory_mb as nat) + "m"@);
    assert(args[k + 8] == "--memory-swap="@ + text::decimal(caps.memory_mb as nat) + "m"@);
    assert(args[k + 9] == "--pids-limit=512"@);
    assert(args[k + 10] == "--cap-drop=ALL"@);
    assert(args[k + 11] == "--security-opt=no-new-privileges"@);
    assert(args[k + 12] == "--user="@ + JOB_UID_GID@);
    if use_gvisor {
        assert(args[2] == "--runtime="@ + RUNSC_PATH@);
    }
}

/// The container's name is one argument, the second, and no other: nothing in a
/// name can become an argument of its own.
pub proof fn law_the_name_is_one_argument(
    name: Seq<char>,
    input: Seq<char>,
    prefix: Seq<char>,
    params: RenderJobParams,
    caps: EffectiveCaps,
    use_gvisor: bool,
    i: int,
)
    requires
        0 <= i < container_args(name, input, prefix, params, caps, use_gvisor).len(),
    ensures
        is_long_flag(container_args(name, input, prefix, params, caps, use_gvisor)[i]) && flag_of(
            container_args(name, input, prefix, params, caps, use_gvisor)[i],
        ) == "--name"@ <==> i == 1,
        container_args(name, input, prefix, params, caps, use_gvisor)[1] == "--name="@ + name,
{
    lemma_value_flags(
        name,
        text::decimal(caps.cpu_cores as nat),
        text::decimal(caps.memory_mb as nat),
    );
    lemma_fixed_flags();
    lemma_plain_args(input, prefix, params);
    lemma_flags_differ();
    reveal_strlit("--");
    reveal_strlit("--name=");
    assert(("--name="@ + name).subrange(0, 2) =~= "--"@);
}

/// The only thing that is ever mounted is the anonymous work volume, and it is
/// mounted once.
pub proof fn law_only_the_work_volume_is_mounted(
    name: Seq<char>,
    input: Seq<char>,
    prefix: Seq<char>,
    params: RenderJobParams,
    caps: EffectiveCaps,
    use_gvisor: bool,
    i: int,
)
    requires
        0 <= i < container_args(name, input, prefix, params, caps, use_gvisor).len(),
        is_long_flag(container_args(name, input, prefix, params, caps, use_gvisor)[i]),
        flag_of(container_args(name, input, prefix, params, caps, use_gvisor)[i]) == "--mount"@,
    ensures
        i == if use_gvisor {
            7int
        } else {
            6int
        },
        container_args(name, input, prefix, params, caps, use_gvisor)[i] == "--mount"@,
        container_args(name, input, prefix, params, caps, use_gvisor)[i + 1]
            == "type=volume,dst=/work"@,
{
    lemma_value_flags(
        name,
        text::decimal(caps.cpu_cores as nat),
        text::decimal(caps.memory_mb as nat),
    );
    lemma_fixed_flags();
    lemma_plain_args(input, prefix, params);
    lemma_flags_differ();
}

/// The arguments that are flags begin with two dashes.
proof fn lemma_long_flags(name: Seq<char>, cpus: Seq<char>, memory: Seq<char>)
    ensures
        is_long_flag("--name="@ + name),
        is_long_flag("--runtime="@ + RUNSC_PATH@),
        is_long_flag("--network=none"@),
        is_long_flag("--read-only"@),
        is_long_flag("--tmpfs"@),
        is_long_flag("--mount"@),
        is_long_flag("--cpus="@ + cpus),
        is_long_flag("--memory="@ + memory + "m"@),
        is_long_flag("--memory-swap="@ + memory + "m"@),
        is_long_flag("--pids-limit=512"@),
        is_long_flag("--cap-drop=ALL"@),
        is_long_flag("--security-opt=no-new-privileges"@),
        is_long_flag("--user="@ + JOB_UID_GID@),
        is_long_flag("--python-expr"@),
{
    reveal_strlit("--");
    reveal_strlit("--name=");
    reveal_strlit("--runtime=");
    reveal_strlit("--network=none");
    reveal_strlit("--read-only");
    reveal_strlit("--tmpfs");
    reveal_strlit("--mount");
    reveal_strlit("--cpus=");
    reveal_strlit("--memory=");
    reveal_strlit("--memory-swap=");
    reveal_strlit("--pids-limit=512");
    reveal_strlit("--cap-drop=ALL");
    reveal_strlit("--security-opt=no-new-privileges");
    reveal_strlit("--user=");
    reveal_strlit("--python-expr");
    assert(("--name="@ + name).subrange(0, 2) =~= "--"@);
    assert(("--runtime="@ + RUNSC_PATH@).subrange(0, 2) =~= "--"@);
    assert("--network=none"@.subrange(0, 2) =~= "--"@);
    assert("--read-only"@.subrange(0, 2) =~= "--"@);
    assert("--tmpfs"@.subrange(0, 2) =~= "--"@);
    assert("--mount"@.subrange(0, 2) =~= "--"@);
    assert(("--cpus="@ + cpus).subrange(0, 2) =~= "--"@);
    assert(("--memory="@ + memory + "m"@).subrange(0, 2) =~= "--"@);
    assert(("--memory-swap="@ + memory + "m"@).subrange(0, 2) =~= "--"@);
    assert("--pids-limit=512"@.subrange(0, 2) =~= "--"@);
    assert("--cap-drop=ALL"@.subrange(0, 2) =~= "--"@);
    assert("--security-opt=no-new-privileges"@.subrange(0, 2) =~= "--"@);
    assert(("--user="@ + JOB_UID_GID@).subrange(0, 2) =~= "--"@);
    assert("--python-expr"@.subrange(0, 2) =~= "--"@);
}

/// The only short flags are Blender's own four. In particular nothing is
/// mounted with `-v`.
pub proof fn law_only_blenders_short_flags(
    name: Seq<char>,
    input: Seq<char>,
    prefix: Seq<char>,
    params: RenderJobParams,
    caps: EffectiveCaps,
    use_gvisor: bool,
    i: int,
)
    requires
        0 <= i < container_args(name, input, prefix, params, caps, use_gvisor).len(),
        text::begins_with(
            container_args(name, input, prefix, params, caps, use_gvisor)[i],
            "-"@,
        ),
        !is_long_flag(container_args(name, input, prefix, params, caps, use_gvisor)[i]),
    ensures
        ({
            let arg = container_args(name, input, prefix, params, caps, use_gvisor)[i];
            arg == "-b"@ || arg == "-o"@ || arg == "-F"@ || arg == "-f"@
        }),
{
    let arg = container_args(name, input, prefix, params, caps, use_gvisor)[i];
    lemma_long_flags(
        name,
        text::decimal(caps.cpu_cores as nat),
        text::decimal(caps.memory_mb as nat),
    );
    reveal_strlit("-");
    assert(arg.subrange(0, 1)[0] == arg[0]);
    assert(arg[0] == '-');
    reveal_strlit("create");
    reveal_strlit("/tmp:rw,noexec,nosuid,size=512m");
    reveal_strlit("type=volume,dst=/work");
    reveal_strlit("sparecycles/blender:4.2.9");
    reveal_strlit("PNG");
    reveal_strlit("/work/");
    reveal_strlit(
        "import bpy; s=bpy.context.scene; r=s.render; r.engine='CYCLES'; r.resolution_x=",
    );
    assert(render_setup(params)[0] == 'i');
    text::lemma_decimal_digits(params.frame as nat);
    assert(text::decimal(params.frame as nat)[0] != '-');
}

/// Two nodes tell Blender the same about one job, whatever each of them gives it
/// in cores, memory and time, and whatever the container is called: behind the
/// image, the argument lists are equal.
pub proof fn law_every_node_renders_the_same(
    name1: Seq<char>,
    name2: Seq<char>,
    input: Seq<char>,
    prefix: Seq<char>,
    params: RenderJobParams,
    caps1: EffectiveCaps,
    caps2: EffectiveCaps,
    gvisor1: bool,
    gvisor2: bool,
)
    ensures
        container_args(name1, input, prefix, params, caps1, gvisor1).skip(
            engine_args(name1, caps1, gvisor1).len() as int,
        ) == container_args(name2, input, prefix, params, caps2, gvisor2).skip(
            engine_args(name2, caps2, gvisor2).len() as int,
        ),
        engine_args(name1, caps1, gvisor1).last() == JOB_IMAGE@,
{
    assert(container_args(name1, input, prefix, params, caps1, gvisor1).skip(
        engine_args(name1, caps1, gvisor1).len() as int,
    ) =~= blender_args(input, prefix, params));
    assert(container_args(name2, input, prefix, params, caps2, gvisor2).skip(
        engine_args(name2, caps2, gvisor2).len() as int,
    ) =~= blender_args(input, prefix, params));
}

/// What Blender is told is what the job says: the input to open, the place to render
/// to, the frame to render, as a PNG, after an expression with the job's resolution
/// and samples. It stands behind the image, and nothing stands behind it.
#[verifier::rlimit(40)]
pub proof fn law_blender_is_told_what_the_job_says(
    name: Seq<char>,
    input: Seq<char>,
    prefix: Seq<char>,
    params: RenderJobParams,
    caps: EffectiveCaps,
    use_gvisor: bool,
)
    ensures
        ({
            let args = container_args(name, input, prefix, params, caps, use_gvisor);
            let n = args.len() as int;
            &&& n == if use_gvisor {
                27int
            } else {
                26int
            }
            &&& args[0] == "create"@
            &&& args[n - 11] == "sparecycles/blender:4.2.9"@
            &&& args[n - 10] == "-b"@
            &&& args[n - 9] == "/work/"@ + input
            &&& args[n - 8] == "--python-expr"@
            &&& text::occurs_in(
                args[n - 7],
                "r.resolution_x="@ + text::decimal(params.resolution_x as nat) + ";"@,
            )
            &&& text::occurs_in(
                args[n - 7],
                "r.resolution_y="@ + text::decimal(params.resolution_y as nat) + ";"@,
            )
            &&& text::occurs_in(
                args[n - 7],
                "setattr(c,'samples',"@ + text::decimal(params.samples as nat) + ")"@,
            )
            &&& args[n - 7].len() == 390 + text::decimal(params.resolution_x as nat).len()
                + text::decimal(params.resolution_y as nat).len() + text::decimal(
                params.samples as nat,
            ).len()
            &&& args[n - 6] == "-o"@
            &&& args[n - 5] == "/work/"@ + prefix
            &&& args[n - 4] == "-F"@
            &&& args[n - 3] == "PNG"@
            &&& args[n - 2] == "-f"@
            &&& text::number_of(args[n - 1]) == params.frame
            &&& args[n - 1] == text::decimal(params.frame as nat)
        }),
{
    law_the_jobs_numbers_are_pinned(params);
    law_every_render_is_set_up_alike(params, params);
    text::law_decimal_text_is_its_number(params.frame as nat);
}

/// What the engine is told is what the caps say, and no more: cores and memory as
/// they were clamped, no swap beyond the memory, a small place for temporary files,
/// a fixed user, and a name for the container.
#[verifier::rlimit(40)]
pub proof fn law_the_engine_is_told_what_the_caps_say(
    name: Seq<char>,
    input: Seq<char>,
    prefix: Seq<char>,
    params: RenderJobParams,
    caps: EffectiveCaps,
    use_gvisor: bool,
)
    ensures
        ({
            let args = container_args(name, input, prefix, params, caps, use_gvisor);
            let k: int = if use_gvisor {
                3
            } else {
                2
            };
            &&& args[1] == "--name="@ + name
            &&& use_gvisor ==> args[2] == "--runtime=/usr/local/bin/runsc"@
            &&& args[k] == "--network=none"@
            &&& args[k + 1] == "--read-only"@
            &&& args[k + 2] == "--tmpfs"@
            &&& args[k + 3] == "/tmp:rw,noexec,nosuid,size=512m"@
            &&& args[k + 4] == "--mount"@
            &&& args[k + 5] == "type=volume,dst=/work"@
            &&& text::begins_with(args[k + 6], "--cpus="@)
            &&& text::number_of(args[k + 6].skip(7)) == caps.cpu_cores
            &&& text::begins_with(args[k + 7], "--memory="@)
            &&& text::number_of(args[k + 7].skip(9).drop_last()) == caps.memory_mb
            &&& args[k + 7].last() == 'm'
            &&& text::begins_with(args[k + 8], "--memory-swap="@)
            &&& text::number_of(args[k + 8].skip(14).drop_last()) == caps.memory_mb
            &&& args[k + 8].last() == 'm'
            &&& args[k + 9] == "--pids-limit=512"@
            &&& args[k + 10] == "--cap-drop=ALL"@
            &&& args[k + 11] == "--security-opt=no-new-privileges"@
            &&& args[k + 12] == "--user=65532:65532"@
        }),
{
    let args = container_args(name, input, prefix, params, caps, use_gvisor);
    let k: int = if use_gvisor {
        3
    } else {
        2
    };
    let cores = text::decimal(caps.cpu_cores as nat);
    let memory = text::decimal(caps.memory_mb as nat);
    text::law_decimal_text_is_its_number(caps.cpu_cores as nat);
    text::law_decimal_text_is_its_number(caps.memory_mb as nat);
    reveal_strlit("--cpus=");
    reveal_strlit("--memory=");
    reveal_strlit("--memory-swap=");
    reveal_strlit("m");
    reveal_strlit("--runtime=");
    reveal_strlit("/usr/local/bin/runsc");
    reveal_strlit("--runtime=/usr/local/bin/runsc");
    reveal_strlit("--user=");
    reveal_strlit("65532:65532");
    reveal_strlit("--user=65532:65532");
    assert("--runtime="@ + RUNSC_PATH@ =~= "--runtime=/usr/local/bin/runsc"@);
    assert("--user="@ + JOB_UID_GID@ =~= "--user=65532:65532"@);
    text::law_parts_are_found(Seq::empty(), "--cpus="@, cores);
    text::law_parts_are_found(Seq::empty(), "--memory="@, memory + "m"@);
    text::law_parts_are_found(Seq::empty(), "--memory-swap="@, memory + "m"@);
    assert("--memory="@ + memory + "m"@ =~= "--memory="@ + (memory + "m"@));
    assert("--memory-swap="@ + memory + "m"@ =~= "--memory-swap="@ + (memory + "m"@));
    assert(args[k + 6] == "--cpus="@ + cores);
    assert(args[k + 6].skip(7) =~= cores);
    assert(args[k + 7].skip(9).drop_last() =~= memory);
    assert(args[k + 8].skip(14).drop_last() =~= memory);
}

} // verus!
