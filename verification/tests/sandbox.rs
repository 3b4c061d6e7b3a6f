use sparecycles::engine::RUNSC_PATH;
use sparecycles::job_runner::sanitize_id;
use sparecycles::sandbox::{
    build_container_args, render_setup_expr, ContributorLimits, EffectiveCaps, RenderJobParams,
    RequestedCaps,
};

fn params() -> RenderJobParams {
    RenderJobParams {
        frame: 1,
        resolution_x: 1920,
        resolution_y: 1080,
        samples: 64,
        requested_caps: RequestedCaps {
            cpu_cores: 32,
            memory_mb: 64_000,
            timeout_seconds: 100_000,
        },
    }
}

fn limits() -> ContributorLimits {
    ContributorLimits {
        max_cpu_percent: 50,
        max_memory_mb: 4096,
        max_timeout_seconds: 3600,
    }
}

#[test]
fn clamps_a_greedy_request_down_to_contributor_limits() {
    let caps = EffectiveCaps::clamp(params().requested_caps, limits(), 16);
    // 50% of 16 cores, not the 32 requested.
    assert_eq!(caps.cpu_cores, 8);
    assert_eq!(caps.memory_mb, 4096);
    assert_eq!(caps.timeout_seconds, 3600);
}

#[test]
fn never_grants_more_than_the_host_has() {
    let mut greedy = limits();
    greedy.max_cpu_percent = 100;
    let caps = EffectiveCaps::clamp(params().requested_caps, greedy, 4);
    assert_eq!(caps.cpu_cores, 4);
}

#[test]
fn always_grants_at_least_one_core() {
    let mut tiny = limits();
    tiny.max_cpu_percent = 1;
    let caps = EffectiveCaps::clamp(params().requested_caps, tiny, 2);
    assert_eq!(caps.cpu_cores, 1);
}

#[test]
fn modest_requests_pass_through_unchanged() {
    let mut modest = params();
    modest.requested_caps = RequestedCaps {
        cpu_cores: 2,
        memory_mb: 2048,
        timeout_seconds: 600,
    };
    let caps = EffectiveCaps::clamp(modest.requested_caps, limits(), 16);
    assert_eq!(
        caps,
        EffectiveCaps {
            cpu_cores: 2,
            memory_mb: 2048,
            timeout_seconds: 600
        }
    );
}

#[test]
fn the_floors_hold_whatever_is_asked_for() {
    let nothing = RequestedCaps {
        cpu_cores: 0,
        memory_mb: 0,
        timeout_seconds: 0,
    };
    let stingy = ContributorLimits {
        max_cpu_percent: 0,
        max_memory_mb: 100,
        max_timeout_seconds: 0,
    };
    let caps = EffectiveCaps::clamp(nothing, stingy, 0);
    assert_eq!(
        caps,
        EffectiveCaps {
            cpu_cores: 1,
            memory_mb: 256,
            timeout_seconds: 1
        }
    );
}

#[test]
fn the_ceiling_on_time_and_the_whole_of_the_host_hold() {
    let generous = ContributorLimits {
        max_cpu_percent: 400,
        max_memory_mb: u64::MAX,
        max_timeout_seconds: u64::MAX,
    };
    let everything = RequestedCaps {
        cpu_cores: u32::MAX,
        memory_mb: u64::MAX,
        timeout_seconds: u64::MAX,
    };
    let caps = EffectiveCaps::clamp(everything, generous, u32::MAX);
    assert_eq!(
        caps,
        EffectiveCaps {
            cpu_cores: u32::MAX,
            memory_mb: u64::MAX,
            timeout_seconds: 21_600
        }
    );
}

#[test]
fn container_args_carry_every_isolation_flag() {
    let caps = EffectiveCaps {
        cpu_cores: 2,
        memory_mb: 2048,
        timeout_seconds: 600,
    };
    let args = build_container_args("job-1", "input.blend", "render_####", &params(), caps, false);
    let joined = args.join(" ");

    assert!(joined.contains("--network=none"));
    assert!(joined.contains("--read-only"));
    assert!(joined.contains("--cap-drop=ALL"));
    assert!(joined.contains("--security-opt=no-new-privileges"));
    assert!(joined.contains("--user=65532:65532"));
    assert!(joined.contains("--cpus=2"));
    assert!(joined.contains("--memory=2048m"));
    assert!(joined.contains("--memory-swap=2048m"));
    assert!(joined.contains("--pids-limit=512"));
    // Script auto-execution must stay off.
    assert!(!joined.contains("--enable-autoexec"));

    // No host path is shared into the container: the work area is an anonymous
    // volume, and files cross as streams.
    assert!(!args.iter().any(|a| a == "-v" || a == "--volume"));
    assert!(joined.contains("type=volume,dst=/work"));
    assert_eq!(args.iter().filter(|a| *a == "--mount").count(), 1);

    // `--rm` would delete the container, and the render with it, on exit.
    assert!(!args.iter().any(|a| a == "--rm"));
}

#[test]
fn hostile_backend_values_cannot_inject_container_flags() {
    let caps = EffectiveCaps {
        cpu_cores: 1,
        memory_mb: 512,
        timeout_seconds: 60,
    };

    let hostile_ids = [
        "x --privileged",
        "a -v /:/host",
        "b --network=host",
        "c\" --user=0:0 \"",
        "d\n--runtime=runc",
        "../../etc/shadow",
        "e; docker run --privileged alpine",
        "f --mount type=bind,src=/,dst=/host",
    ];

    for hostile in hostile_ids {
        let name = sanitize_id(hostile);
        let args = build_container_args(&name, "input.blend", "render_####", &params(), caps, false);

        assert!(
            !args.iter().any(|a| a == "--privileged"),
            "injected --privileged via {hostile:?}"
        );
        assert!(
            !args.iter().any(|a| a.contains("/:/") || a.contains("src=/")),
            "injected a host mount via {hostile:?}"
        );
        assert!(
            !args.iter().any(|a| a == "--user=0:0"),
            "injected a root user via {hostile:?}"
        );
        assert!(
            args.iter().any(|a| a == "--network=none"),
            "lost network isolation via {hostile:?}"
        );
        // The name is one argv element, so spaces in it can never become
        // separate arguments.
        assert_eq!(
            args.iter().filter(|a| a.starts_with("--name=")).count(),
            1,
            "name split into multiple arguments via {hostile:?}"
        );
    }
}

#[test]
fn the_limits_stand_there_once_whatever_the_names_are() {
    let caps = EffectiveCaps { cpu_cores: 2, memory_mb: 1024, timeout_seconds: 120 };
    for hostile in ["--pids-limit=-1", "--memory-swap=-1", "x --memory=9g", "--cpus=64"] {
        let args = build_container_args(hostile, hostile, hostile, &params(), caps, true);
        for (flag, value) in [
            ("--cpus", "2"),
            ("--memory", "1024m"),
            ("--memory-swap", "1024m"),
            ("--pids-limit", "512"),
        ] {
            let given: Vec<&String> =
                args.iter().filter(|a| a.split('=').next() == Some(flag)).collect();
            assert_eq!(given, vec![&format!("{flag}={value}")], "{hostile:?}");
        }
    }
}

#[test]
fn container_args_contain_only_allowlisted_flags() {
    const ALLOWED: &[&str] = &[
        "--name",
        "--runtime",
        "--network",
        "--read-only",
        "--tmpfs",
        "--mount",
        "--cpus",
        "--memory",
        "--memory-swap",
        "--pids-limit",
        "--cap-drop",
        "--security-opt",
        "--user",
        // Blender's own flags, after the image name.
        "--python-expr",
    ];

    let caps = EffectiveCaps {
        cpu_cores: 2,
        memory_mb: 1024,
        timeout_seconds: 120,
    };

    for use_gvisor in [true, false] {
        let args =
            build_container_args("job-1", "input.blend", "render_####", &params(), caps, use_gvisor);

        for arg in args.iter().filter(|a| a.starts_with("--")) {
            let flag = arg.split('=').next().unwrap();
            assert!(
                ALLOWED.contains(&flag),
                "unexpected container flag {flag:?} — if this is intentional, add it to \
                 ALLOWED and make sure it does not weaken the sandbox"
            );
        }
    }
}

#[test]
fn render_setup_pins_engine_samples_and_determinism() {
    let mut p = params();
    p.samples = 8;
    let expr = render_setup_expr(&p);

    // The scene's own engine must not decide what the buyer gets: EEVEE ignores
    // cycles.samples and would render at its own count.
    assert!(expr.contains("r.engine='CYCLES'"));
    assert!(expr.contains("setattr(c,'samples',8)"));
    assert!(expr.contains("r.resolution_x=1920"));
    assert!(expr.contains("r.resolution_y=1080"));
    // Reproducibility, so that hashes can be compared across two nodes.
    assert!(expr.contains("setattr(c,'device','CPU')"));
    assert!(expr.contains("setattr(c,'seed',0)"));
    assert!(expr.contains("setattr(c,'use_denoising',False)"));
    assert!(expr.contains("r.use_stamp=False"));
    // Metadata carries render timestamps, which would make two identical renders
    // hash differently, and can leak host details to the buyer.
    assert!(expr.contains("startswith('use_stamp')"));
}

#[test]
fn the_render_setup_is_one_exact_expression() {
    let mut p = params();
    p.samples = 8;
    assert_eq!(
        render_setup_expr(&p),
        "import bpy; s=bpy.context.scene; r=s.render; r.engine='CYCLES'; \
         r.resolution_x=1920; r.resolution_y=1080; r.resolution_percentage=100; \
         r.image_settings.file_format='PNG'; r.use_stamp=False; \
         [setattr(r,a,False) for a in dir(r) if a.startswith('use_stamp')]; \
         c=getattr(s,'cycles',None); \
         (c and [setattr(c,'device','CPU'), setattr(c,'samples',8), \
         setattr(c,'seed',0), setattr(c,'use_denoising',False)])"
    );
}

#[test]
fn gvisor_runtime_is_requested_only_when_available() {
    let caps = EffectiveCaps {
        cpu_cores: 1,
        memory_mb: 512,
        timeout_seconds: 60,
    };
    // Named by path: Podman has no runtime registry to resolve a name in, so a
    // bare "runsc" would silently fall back to the default runtime.
    let with_gvisor = build_container_args("j", "i.blend", "r_####", &params(), caps, true);
    assert!(with_gvisor
        .iter()
        .any(|a| a == &format!("--runtime={RUNSC_PATH}")));

    let without = build_container_args("j", "i.blend", "r_####", &params(), caps, false);
    assert!(!without.iter().any(|a| a.starts_with("--runtime")));
}

#[test]
fn the_whole_argument_list_in_order() {
    let caps = EffectiveCaps {
        cpu_cores: 3,
        memory_mb: 1024,
        timeout_seconds: 60,
    };
    let mut p = params();
    p.frame = 42;
    let args = build_container_args("job-9", "input.blend", "render_####", &p, caps, true);
    let setup = render_setup_expr(&p);
    let expected: Vec<&str> = vec![
        "create",
        "--name=job-9",
        "--runtime=/usr/local/bin/runsc",
        "--network=none",
        "--read-only",
        "--tmpfs",
        "/tmp:rw,noexec,nosuid,size=512m",
        "--mount",
        "type=volume,dst=/work",
        "--cpus=3",
        "--memory=1024m",
        "--memory-swap=1024m",
        "--pids-limit=512",
        "--cap-drop=ALL",
        "--security-opt=no-new-privileges",
        "--user=65532:65532",
        "sparecycles/blender:4.2.9",
        "-b",
        "/work/input.blend",
        "--python-expr",
        &setup,
        "-o",
        "/work/render_####",
        "-F",
        "PNG",
        "-f",
        "42",
    ];
    assert_eq!(args, expected);
}

#[test]
fn every_node_tells_blender_the_same() {
    let behind_the_image = |name: &str, cores: u32, memory_mb: u64, use_gvisor: bool| {
        let caps = EffectiveCaps {
            cpu_cores: cores,
            memory_mb,
            timeout_seconds: 60,
        };
        let args =
            build_container_args(name, "input.blend", "render_####", &params(), caps, use_gvisor);
        let image = args
            .iter()
            .position(|a| a == "sparecycles/blender:4.2.9")
            .unwrap();
        args[image + 1..].to_vec()
    };
    assert_eq!(
        behind_the_image("a", 1, 512, true),
        behind_the_image("b", 16, 4096, false)
    );
}

#[test]
fn only_blender_has_short_flags() {
    let caps = EffectiveCaps {
        cpu_cores: 1,
        memory_mb: 512,
        timeout_seconds: 60,
    };
    // Names that begin with a dash stay behind their flag or their directory.
    let args = build_container_args("-v", "-v", "-v", &params(), caps, true);
    let short: Vec<&String> = args
        .iter()
        .filter(|a| a.starts_with('-') && !a.starts_with("--"))
        .collect();
    assert_eq!(short, ["-b", "-o", "-F", "-f"]);
}
