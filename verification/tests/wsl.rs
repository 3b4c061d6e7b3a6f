use sparecycles::command::ProcessOutput;
use sparecycles::text::{entries, trim};
use sparecycles::wsl::{
    decode_wsl_output, installed_distros, list_distros_command, valid_distro_name,
};

fn utf16(text: &str) -> Vec<u8> {
    let mut bytes = Vec::new();
    for ch in text.encode_utf16() {
        bytes.extend_from_slice(&ch.to_le_bytes());
    }
    bytes
}

fn output(success: bool, stdout: &[u8], stderr: &[u8]) -> ProcessOutput {
    ProcessOutput {
        success,
        exit_code: Some(if success { 0 } else { 1 }),
        stdout: stdout.to_vec(),
        stderr: stderr.to_vec(),
    }
}

#[test]
fn wsl_utf16_output_decodes_to_distro_names() {
    // Exactly what `wsl --list --quiet` writes: UTF-16LE, CRLF-separated.
    let mut bytes = Vec::new();
    for ch in "docker-desktop\r\nSpareCycles\r\n".encode_utf16() {
        bytes.extend_from_slice(&ch.to_le_bytes());
    }

    let decoded = decode_wsl_output(&bytes);
    let names: Vec<_> = decoded
        .lines()
        .map(str::trim)
        .filter(|l| !l.is_empty())
        .collect();
    assert_eq!(names, ["docker-desktop", "SpareCycles"]);
    assert_eq!(entries(&decoded), ["docker-desktop", "SpareCycles"]);
}

#[test]
fn a_utf16_bom_is_not_mistaken_for_a_distro_name() {
    let mut bytes = vec![0xFF, 0xFE];
    for ch in "SpareCycles\r\n".encode_utf16() {
        bytes.extend_from_slice(&ch.to_le_bytes());
    }
    assert_eq!(decode_wsl_output(&bytes).trim(), "SpareCycles");
    assert_eq!(trim(&decode_wsl_output(&bytes)), "SpareCycles");
}

/// If a future WSL emits UTF-8, decoding must not mangle it.
#[test]
fn plain_utf8_output_survives() {
    assert_eq!(decode_wsl_output(b"SpareCycles\n").trim(), "SpareCycles");
}

#[test]
fn utf8_beyond_ascii_survives() {
    let text = "größe → 名前 🦀\n";
    assert_eq!(decode_wsl_output(text.as_bytes()), text);
}

#[test]
fn narrow_text_survives_utf16_with_and_without_a_mark() {
    let text = "naïve façade ÿ\r\n";
    assert_eq!(decode_wsl_output(&utf16(text)), text);
    let mut marked = vec![0xFF, 0xFE];
    marked.extend_from_slice(&utf16(text));
    assert_eq!(decode_wsl_output(&marked), text);
}

#[test]
fn surrogates_are_paired_or_replaced() {
    let text = "distro 🦀 name\r\n";
    assert_eq!(decode_wsl_output(&utf16(text)), text);

    // A lone high surrogate among plain characters.
    let mut bytes = utf16("abcd");
    bytes.extend_from_slice(&0xd83du16.to_le_bytes());
    bytes.extend_from_slice(&utf16("ef"));
    assert_eq!(decode_wsl_output(&bytes), "abcd\u{fffd}ef");
}

#[test]
fn edge_cases_of_the_decoder() {
    assert_eq!(decode_wsl_output(&[]), "");
    assert_eq!(decode_wsl_output(&[0xFF, 0xFE]), "");
    assert_eq!(decode_wsl_output(&[b'a', 0]), "a");
    // An odd length is not UTF-16.
    assert_eq!(decode_wsl_output(&[b'a', 0, b'b']), "a\0b");
    // Exactly half of the units being narrow is not enough.
    assert_eq!(decode_wsl_output(&[b'a', 0, b'b', b'c']), "a\0bc");
    assert_eq!(decode_wsl_output(&[0xC3, 0x28]), "\u{fffd}(");
}

/// A configurable string must not be able to turn into an argument to `wsl.exe`.
#[test]
fn a_distro_name_cannot_smuggle_in_a_flag() {
    for hostile in [
        "--version",
        "-d other",
        "SpareCycles --version 1",
        "Spare Cycles",
        "Spare;Cycles",
        "../../etc",
        "",
    ] {
        assert!(
            !valid_distro_name(hostile),
            "{hostile:?} should not be accepted as a distro name"
        );
    }

    for ok in ["SpareCycles", "spare-cycles", "spare_cycles.2", "Test1"] {
        assert!(valid_distro_name(ok), "{ok:?} should be a usable name");
    }
}

#[test]
fn distro_names_have_a_longest_length() {
    assert!(valid_distro_name(&"a".repeat(64)));
    assert!(!valid_distro_name(&"a".repeat(65)));
    assert!(!valid_distro_name("größe"));
}

#[test]
fn distros_are_listed_by_wsl_itself() {
    let command = list_distros_command();
    assert_eq!(command.program, "wsl");
    assert_eq!(command.args, ["--list", "--quiet"]);
}

#[test]
fn the_listing_is_read_or_explained() {
    let listed = installed_distros(Ok(output(true, &utf16("one\r\n\r\n  two \r\n"), b"")));
    assert_eq!(listed, Ok(vec!["one".to_string(), "two".to_string()]));
    assert_eq!(installed_distros(Ok(output(true, b"", b""))), Ok(vec![]));
    assert_eq!(
        installed_distros(Ok(output(false, b"", &utf16("WSL is broken.\r\n")))),
        Err("wsl --list failed: WSL is broken.".to_string())
    );
    assert_eq!(
        installed_distros(Err("not found".into())),
        Err("could not run wsl: not found. Is WSL installed?".to_string())
    );
}
