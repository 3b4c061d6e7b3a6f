use sparecycles::command::ProcessOutput;
use sparecycles::engine::{
    build_tar, copied_into, copied_out, copy_file_into, copy_file_out, extract_single_file,
    gvisor_runtime_flag, Engine, FeedEnd, RUNSC_PATH,
};
use std::io::Read;

fn engine() -> Engine {
    Engine::Wsl {
        distro: "SpareCycles".into(),
    }
}

fn output(success: bool, stdout: &[u8], stderr: &[u8]) -> ProcessOutput {
    ProcessOutput {
        success,
        exit_code: Some(if success { 0 } else { 1 }),
        stdout: stdout.to_vec(),
        stderr: stderr.to_vec(),
    }
}

#[test]
fn a_file_survives_a_round_trip_through_tar() {
    // The bytes we stream in must be exactly the bytes that come back out: a
    // render that changed in transit would fail verification.
    let payload: Vec<u8> = (0..=255u8).cycle().take(10_000).collect();
    let archive = build_tar("input.blend", &payload).unwrap();
    assert_eq!(extract_single_file(&archive).unwrap(), payload);
}

#[test]
fn empty_archives_are_an_error_not_an_empty_render() {
    let empty = tar::Builder::new(Vec::new()).into_inner().unwrap();
    assert!(extract_single_file(&empty).is_err());
    assert_eq!(
        extract_single_file(&empty).unwrap_err(),
        "the container produced no file"
    );
    assert_eq!(
        extract_single_file(&[]).unwrap_err(),
        "the container produced no file"
    );
}

#[test]
fn an_empty_file_is_not_an_empty_archive() {
    let archive = build_tar("input.blend", &[]).unwrap();
    assert_eq!(extract_single_file(&archive).unwrap(), Vec::<u8>::new());
}

#[test]
fn the_first_regular_file_is_taken() {
    let mut builder = tar::Builder::new(Vec::new());
    let mut dir = tar::Header::new_gnu();
    dir.set_entry_type(tar::EntryType::Directory);
    dir.set_size(0);
    dir.set_mode(0o755);
    dir.set_cksum();
    builder.append_data(&mut dir, "work/", &[][..]).unwrap();
    let mut first = tar::Header::new_gnu();
    first.set_size(3);
    first.set_mode(0o644);
    first.set_cksum();
    builder.append_data(&mut first, "a.png", &b"one"[..]).unwrap();
    let mut second = tar::Header::new_gnu();
    second.set_size(3);
    second.set_mode(0o644);
    second.set_cksum();
    builder.append_data(&mut second, "b.png", &b"two"[..]).unwrap();
    let archive = builder.into_inner().unwrap();
    assert_eq!(extract_single_file(&archive).unwrap(), b"one".to_vec());
}

#[test]
fn a_damaged_archive_says_so() {
    let message = extract_single_file(&[7u8; 100]).unwrap_err();
    assert!(message.starts_with("could not read the output archive: "), "{message}");

    // The header promises more than the archive holds.
    let payload = vec![9u8; 5000];
    let archive = build_tar("input.blend", &payload).unwrap();
    let message = extract_single_file(&archive[..1024]);
    assert!(message.is_err() || message.unwrap() != payload);
}

#[test]
fn an_archive_names_its_file_and_its_mode() {
    let archive = build_tar("input.blend", b"scene").unwrap();
    let mut reader = tar::Archive::new(&archive[..]);
    let entry = reader.entries().unwrap().next().unwrap().unwrap();
    assert_eq!(entry.path().unwrap().to_string_lossy(), "input.blend");
    assert_eq!(entry.header().mode().unwrap(), 0o644);
    assert_eq!(entry.header().size().unwrap(), 5);
}

#[test]
fn a_name_that_leaves_its_directory_is_not_archived() {
    let deep = format!("/{}", "d/".repeat(80));
    for name in ["../evil", "..", "", "/etc/passwd", "a\0b", "a/../b", "a/..", "/", &deep] {
        let message = build_tar(name, b"x").unwrap_err();
        assert!(message.starts_with("could not build the input archive: "), "{message}");
        // The rest is what the `tar` crate says.
        let mut header = tar::Header::new_gnu();
        let complaint = tar::Builder::new(Vec::new())
            .append_data(&mut header, name, &b""[..])
            .unwrap_err();
        assert_eq!(message, format!("could not build the input archive: {complaint}"));
    }
}

#[test]
fn a_relative_path_is_archived_as_it_stands() {
    let longest = "é".repeat(50);
    let deep = "d/".repeat(90) + "scene.blend";
    // Cut off at the room in the header, the last part would look like two dots.
    let dots = "n".repeat(97) + "/...";
    for name in [
        "my scene.blend",
        "größe é 名前.blend",
        "-v",
        ".hidden",
        "...",
        "a",
        "a/b/scene.blend",
        "..a/b..",
        &longest,
        &deep,
        &dots,
    ] {
        let archive = build_tar(name, b"scene").unwrap();
        let mut reader = tar::Archive::new(&archive[..]);
        let entry = reader.entries().unwrap().next().unwrap().unwrap();
        assert_eq!(entry.path().unwrap().to_string_lossy(), name);
        assert_eq!(extract_single_file(&archive).unwrap(), b"scene".to_vec());
    }
    for name in [".", "./a", "a//b", "a/./b", "a/"] {
        let archive = build_tar(name, b"scene").unwrap();
        assert_eq!(extract_single_file(&archive).unwrap(), b"scene".to_vec());
    }
}

#[test]
fn of_a_long_name_only_the_beginning_is_looked_at() {
    let n = "n".repeat(90);
    for (name, accepted) in [
        (format!("{n}nnnnnn/.."), false),
        (format!("{n}nnnnnnn/.."), true),
        (format!("{n}nnnnnnnn/../x"), true),
        (format!("{n}nnnnnn/../x"), true),
        (format!("{n}nnnnn/../x"), false),
        (format!("{n}n/../././/x"), true),
        (format!("{n}/../././/x"), false),
        (format!("{n}/.././/.x/y"), false),
        (format!("../{n}nnnnnnnn"), false),
        (format!("{n}nnnnnnnnnn\0"), true),
        (format!("{n}nnnnnnnnn\0nn"), false),
        (format!("/{n}nnnnnnnnnnnn"), false),
        (format!("{n}nnnnnnnnné/../é"), true),
    ] {
        let archive = build_tar(&name, b"scene");
        assert_eq!(archive.is_ok(), accepted, "{name}");
        if let Ok(archive) = archive {
            assert_eq!(extract_single_file(&archive).unwrap(), b"scene".to_vec());
        }
    }
}

#[test]
fn a_long_name_does_not_change_the_contents() {
    let archive = build_tar(&"n".repeat(300), b"scene").unwrap();
    assert_eq!(extract_single_file(&archive).unwrap(), b"scene".to_vec());

    // Not even contents that look like headers.
    let mut contents = extended_sparse_header(u64::MAX - 1023);
    contents.extend_from_slice(&[b'x'; 1024]);
    let archive = build_tar(&"n".repeat(300), &contents).unwrap();
    assert_eq!(extract_single_file(&archive).unwrap(), contents);
}

/// The header of a sparse entry that goes on in the next block, with this size in
/// binary.
fn extended_sparse_header(size: u64) -> Vec<u8> {
    let mut header = tar::Header::new_gnu();
    header.set_entry_type(tar::EntryType::GNUSparse);
    header.as_old_mut().size = [0; 12];
    header.as_old_mut().size[0] = 0x80;
    header.as_old_mut().size[4..].copy_from_slice(&size.to_be_bytes());
    header.as_gnu_mut().unwrap().set_real_size(0);
    header.as_gnu_mut().unwrap().isextended = [1];
    header.set_cksum();
    header.as_bytes().to_vec()
}

const UNREADABLE: &str =
    "could not read the output archive: a sparse entry is longer than any archive";

#[test]
fn an_overlong_sparse_entry_is_an_error() {
    let mut archive = extended_sparse_header(u64::MAX - 1023);
    archive.extend_from_slice(&[0; 512]);
    assert_eq!(archive.len(), 1024);
    assert_eq!(extract_single_file(&archive).unwrap_err(), UNREADABLE);

    // Behind another entry as well.
    let mut dir = tar::Header::new_gnu();
    dir.set_entry_type(tar::EntryType::Directory);
    dir.set_path("work/").unwrap();
    dir.set_size(0);
    dir.set_cksum();
    let mut behind = dir.as_bytes().to_vec();
    behind.extend_from_slice(&extended_sparse_header(u64::MAX - 1535));
    behind.extend_from_slice(&[0; 512]);
    assert_eq!(extract_single_file(&behind).unwrap_err(), UNREADABLE);

    assert_eq!(
        copied_out("/work/render_0001.png", Ok(output(true, &archive, b""))),
        Err(UNREADABLE.to_string())
    );
}

/// A header with pax records for the entry behind it.
fn pax_header(records: &[u8]) -> Vec<u8> {
    let mut pax = tar::Header::new_ustar();
    pax.set_entry_type(tar::EntryType::XHeader);
    pax.set_size(records.len() as u64);
    pax.set_cksum();
    let mut bytes = pax.as_bytes().to_vec();
    bytes.extend_from_slice(records);
    bytes.resize(1024, 0);
    bytes
}

#[test]
fn an_overlong_size_from_a_pax_record_is_an_error() {
    for (records, header_size) in [
        (&b"29 size=18446744073709549568\n"[..], 0),
        (b"30 size=+18446744073709549568\n", 0),
        (b"11 path=ab\n29 size=18446744073709549568\n", 0),
        // The record counts, whatever the header says.
        (b"29 size=18446744073709549568\n", u64::MAX),
    ] {
        let mut archive = pax_header(records);
        archive.extend_from_slice(&extended_sparse_header(header_size));
        archive.extend_from_slice(&[0; 512]);
        assert_eq!(extract_single_file(&archive).unwrap_err(), UNREADABLE);
    }
}

#[test]
fn records_without_an_overlong_size_are_left_to_tar() {
    for records in [
        &b"10 size=0\n"[..],
        b"11 path=ab\n",
        b"28 size=18446744073709549568\n",
        b"29 sizes=1844674407370955059\n",
        b"30 size=-18446744073709549568\n",
        b"31 size=118446744073709549568x\n",
        b"30 size=184467440737095516150\n",
        b"8 size=\n",
        b"10 size=+\n",
        b"no record\n29 size=18446744073709549568\n",
    ] {
        let mut archive = pax_header(records);
        archive.extend_from_slice(&extended_sparse_header(0));
        archive.extend_from_slice(&[0; 512]);
        archive.extend_from_slice(&build_tar("a.png", b"pixels").unwrap());
        assert_eq!(extract_single_file(&archive), tar_answer(&archive));
        assert_eq!(extract_single_file(&archive).unwrap(), b"pixels".to_vec());
    }
}

#[test]
fn a_long_name_passes_the_record_on() {
    let mut long = tar::Header::new_gnu();
    long.set_entry_type(tar::EntryType::GNULongName);
    long.set_size(3);
    long.set_cksum();
    let mut archive = pax_header(b"29 size=18446744073709548544\n");
    archive.extend_from_slice(long.as_bytes());
    archive.extend_from_slice(b"abc");
    archive.resize(2048, 0);
    archive.extend_from_slice(&extended_sparse_header(0));
    archive.extend_from_slice(&[0; 512]);
    assert_eq!(extract_single_file(&archive).unwrap_err(), UNREADABLE);
}

#[test]
fn an_ordinary_sparse_entry_is_read_over() {
    // No blocks and no contents: not a file, so the next entry is taken, whatever
    // its contents look like.
    let mut contents = extended_sparse_header(u64::MAX - 1023);
    contents.extend_from_slice(&[b'x'; 1024]);
    for blocks in 1..4 {
        let mut archive = extended_sparse_header(0);
        for block in 1..=blocks {
            let mut extension = [0; 512];
            extension[504] = (block < blocks) as u8;
            archive.extend_from_slice(&extension);
        }
        archive.extend_from_slice(&build_tar("a.png", &contents).unwrap());
        assert_eq!(extract_single_file(&archive), tar_answer(&archive));
        assert_eq!(extract_single_file(&archive).unwrap(), contents);
    }
}

#[test]
fn a_size_that_cannot_be_is_left_to_tar() {
    // The end of the entry itself is too far, or the archive ends too early.
    for size in [u64::MAX, u64::MAX - 511, 512, 1 << 40] {
        let mut archive = extended_sparse_header(size);
        archive.extend_from_slice(&[0; 512]);
        let message = extract_single_file(&archive).unwrap_err();
        assert_eq!(Err(message.clone()), tar_answer(&archive));
        assert!(message.starts_with("could not read the output archive: "), "{message}");
    }
    // A header that was tampered with.
    let mut archive = extended_sparse_header(u64::MAX - 1023);
    archive[0] = b'n';
    archive.extend_from_slice(&[0; 512]);
    assert_eq!(
        extract_single_file(&archive).unwrap_err(),
        "could not read the output archive: archive header checksum mismatch"
    );
}

#[test]
fn what_stands_behind_the_first_file_does_not_matter() {
    let mut archive = build_tar("a.png", b"pixels").unwrap();
    archive.truncate(1024);
    archive.extend_from_slice(&extended_sparse_header(u64::MAX - 2047));
    archive.extend_from_slice(&[0; 512]);
    assert_eq!(extract_single_file(&archive).unwrap(), b"pixels".to_vec());
}

/// What the `tar` crate itself makes of an archive.
fn tar_answer(archive: &[u8]) -> Result<Vec<u8>, String> {
    for entry in tar::Archive::new(archive).entries().unwrap() {
        let mut entry =
            entry.map_err(|e| format!("could not read the output archive: {e}"))?;
        if entry.header().entry_type().is_file() {
            let mut bytes = Vec::new();
            entry.read_to_end(&mut bytes).unwrap();
            return Ok(bytes);
        }
    }
    Err("the container produced no file".to_string())
}

#[test]
fn contents_may_look_like_anything() {
    let mut contents = extended_sparse_header(u64::MAX - 1023);
    contents.extend_from_slice(&[0; 512]);
    let archive = build_tar("input.blend", &contents).unwrap();
    assert_eq!(extract_single_file(&archive).unwrap(), contents);
}

#[test]
fn every_command_runs_inside_the_distro() {
    let engine = engine();

    let cmd = engine.cmd();
    assert_eq!(cmd.program, "wsl");
    assert_eq!(cmd.args, ["-d", "SpareCycles", "--", "podman"]);

    let probe = engine.host_cmd(RUNSC_PATH);
    assert_eq!(probe.program, "wsl");
    assert_eq!(probe.args, ["-d", "SpareCycles", "--", RUNSC_PATH]);

    let more = engine.cmd_with(vec!["kill".to_string(), "a b".to_string()]);
    assert_eq!(more.program, "wsl");
    assert_eq!(more.args, ["-d", "SpareCycles", "--", "podman", "kill", "a b"]);
}

#[test]
fn gvisor_is_requested_by_path() {
    assert_eq!(gvisor_runtime_flag(), format!("--runtime={RUNSC_PATH}"));
    assert!(gvisor_runtime_flag().ends_with("/runsc"));
}

#[test]
fn the_engine_says_where_it_is() {
    assert_eq!(engine().describe(), "Podman in the 'SpareCycles' WSL2 distro");
}

#[test]
fn a_file_is_copied_in_as_a_stream() {
    let feed = copy_file_into(&engine(), "job-1", "/work", "input.blend", b"scene").unwrap();
    assert_eq!(feed.command.program, "wsl");
    assert_eq!(
        feed.command.args,
        ["-d", "SpareCycles", "--", "podman", "cp", "-", "job-1:/work"]
    );
    assert_eq!(extract_single_file(&feed.stdin).unwrap(), b"scene".to_vec());
}

#[test]
fn every_way_a_copy_in_can_end() {
    assert_eq!(copied_into(FeedEnd::Ended(output(true, b"", b"noise"))), Ok(()));
    let failures = vec![
        (FeedEnd::NotStarted("gone".into()), "could not start `podman cp`: gone"),
        (FeedEnd::NoStdin, "`podman cp` gave us no stdin"),
        (FeedEnd::WriteFailed("full".into()), "could not write the input archive: full"),
        (FeedEnd::CloseFailed("shut".into()), "could not finish the input archive: shut"),
        (FeedEnd::WaitFailed("lost".into()), "`podman cp` failed: lost"),
        (
            FeedEnd::Ended(output(false, b"", b"  no such container \n")),
            "`podman cp` failed: no such container",
        ),
    ];
    for (end, message) in failures {
        assert_eq!(copied_into(end), Err(message.to_string()));
    }
}

#[test]
fn a_file_is_copied_out_as_a_stream() {
    let command = copy_file_out(&engine(), "job-1", "/work/render_0001.png");
    assert_eq!(
        command.args,
        ["-d", "SpareCycles", "--", "podman", "cp", "job-1:/work/render_0001.png", "-"]
    );

    let archive = build_tar("render_0001.png", b"pixels").unwrap();
    assert_eq!(
        copied_out("/work/render_0001.png", Ok(output(true, &archive, b""))),
        Ok(b"pixels".to_vec())
    );
    assert_eq!(
        copied_out("/work/render_0001.png", Ok(output(false, &archive, b" missing\n"))),
        Err("could not read /work/render_0001.png: missing".to_string())
    );
    assert_eq!(
        copied_out("/work/render_0001.png", Err("no wsl".into())),
        Err("could not read from the container: no wsl".to_string())
    );
}

#[test]
fn a_complaint_that_is_not_utf8_is_repaired() {
    assert_eq!(
        copied_into(FeedEnd::Ended(output(false, b"", b"bad \xff byte"))),
        Err("`podman cp` failed: bad \u{fffd} byte".to_string())
    );
}
