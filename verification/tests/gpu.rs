use sparecycles::command::ProcessOutput;
use sparecycles::gpu::{
    adapter_command, detect_gpu, is_card, is_idle, normalize_vendor, nvidia_command, nvidia_usage,
    query_adapter_name, query_linux_sysfs, query_nvidia, vendor_from, DeviceEntry, GpuReading,
};

fn printed(text: &str) -> Result<ProcessOutput, String> {
    Ok(ProcessOutput {
        success: true,
        exit_code: Some(0),
        stdout: text.as_bytes().to_vec(),
        stderr: vec![],
    })
}

fn failed(text: &str) -> Result<ProcessOutput, String> {
    Ok(ProcessOutput {
        success: false,
        exit_code: Some(1),
        stdout: text.as_bytes().to_vec(),
        stderr: vec![],
    })
}

fn parts(reading: Option<GpuReading>) -> Option<(String, String, Option<String>)> {
    reading.map(|r| (r.name, r.vendor, r.usage))
}

#[test]
fn normalizes_vendor_strings() {
    assert_eq!(normalize_vendor("Advanced Micro Devices, Inc."), "AMD");
    assert_eq!(normalize_vendor("NVIDIA Corporation"), "NVIDIA");
    assert_eq!(normalize_vendor("Intel Corporation"), "Intel");
    assert_eq!(normalize_vendor("ATI Technologies Inc."), "AMD");
    assert_eq!(normalize_vendor(""), "Unknown");
}

#[test]
fn other_vendors_keep_their_name() {
    assert_eq!(normalize_vendor("  Qualcomm \n"), "Qualcomm");
    assert_eq!(normalize_vendor(" \t"), "Unknown");
    assert_eq!(normalize_vendor("Größe"), "Größe");
    // The Kelvin sign lowers to an ASCII k.
    assert_eq!(normalize_vendor("\u{212a}yro"), "\u{212a}yro");
    assert_eq!(vendor_from("Whatever", "an amd card"), "AMD");
    assert_eq!(vendor_from("Whatever", "something else"), "Whatever");
}

#[test]
fn the_nvidia_tool_prints_a_name_and_a_reading() {
    let command = nvidia_command();
    assert_eq!(command.program, "nvidia-smi");
    assert_eq!(
        command.args,
        ["--query-gpu=name,utilization.gpu", "--format=csv,noheader,nounits"]
    );

    let end = printed("NVIDIA GeForce RTX 3080, 17\nsecond, 3\n");
    assert_eq!(nvidia_usage(&end), Some("17".to_string()));
    assert_eq!(
        parts(query_nvidia(&end, true)),
        Some((
            "NVIDIA GeForce RTX 3080".to_string(),
            "NVIDIA".to_string(),
            Some("17".to_string())
        ))
    );
    assert_eq!(
        parts(query_nvidia(&printed("a,b,c"), true)),
        Some(("a".to_string(), "NVIDIA".to_string(), Some("b".to_string())))
    );
    let not_utf8 = Ok(ProcessOutput {
        success: true,
        exit_code: Some(0),
        stdout: vec![0xff, b',', b'1'],
        stderr: vec![],
    });
    for silent in [
        printed("no reading here"),
        printed(""),
        failed("a, 1"),
        Err("not found".into()),
        not_utf8,
    ] {
        assert_eq!(nvidia_usage(&silent), None);
        assert_eq!(parts(query_nvidia(&silent, true)), None);
    }
}

#[test]
fn a_reading_that_is_no_number_is_no_reading() {
    let end = printed("NVIDIA GeForce RTX 3080, [N/A]\n");
    let usage = nvidia_usage(&end).unwrap();
    assert_eq!(usage, "[N/A]");
    assert_eq!(parts(query_nvidia(&end, usage.parse::<f32>().is_ok())), None);
}

#[test]
fn a_vendor_is_normal_and_trimmed() {
    for raw in [
        "Advanced Micro Devices, Inc.",
        "NVIDIA Corporation",
        "Intel Corporation",
        "ATI Technologies Inc.",
        "  Matrox Graphics \n",
        " \t",
        "",
        "Größe",
        "\u{3000}ΟΔΥΣΣΕΥΣ \n",
        " ΝVIDIA ",
    ] {
        let vendor = normalize_vendor(raw);
        assert_eq!(normalize_vendor(&vendor), vendor);
        assert!(!vendor.is_empty());
        assert_eq!(vendor.trim(), vendor);
    }
}

#[test]
fn cards_are_told_from_connectors() {
    assert!(is_card("card0"));
    assert!(!is_card("card0-DP-1"));
    assert!(!is_card("renderD128"));
}

fn entry(name: &str, busy: Option<&str>, busy_is_number: bool, vendor_id: &str) -> DeviceEntry {
    DeviceEntry {
        name: name.to_string(),
        busy: busy.map(|b| b.to_string()),
        busy_is_number,
        vendor_id: vendor_id.to_string(),
    }
}

#[test]
fn cards_are_named_after_their_vendor() {
    for (id, vendor) in [
        ("0x1002\n", "AMD"),
        ("0x8086\n", "Intel"),
        ("0x10de\n", "NVIDIA"),
        ("0x1234\n", "Unknown"),
        ("", "Unknown"),
    ] {
        let reading = query_linux_sysfs(&vec![entry("card1", Some(" 42\n"), true, id)]).unwrap();
        assert_eq!(reading.vendor, vendor);
        assert_eq!(reading.name, format!("{vendor} GPU (card1)"));
        assert_eq!(reading.usage, Some("42".to_string()));
    }
}

#[test]
fn the_first_card_with_a_reading_is_taken() {
    let entries = vec![
        entry("renderD128", Some("1"), true, "0x1002"),
        entry("card0-DP-1", Some("2"), true, "0x1002"),
        entry("card0", None, false, "0x8086"),
        entry("card1", Some("n/a"), false, "0x8086"),
        entry("card2", Some("5"), true, "0x1002"),
        entry("card3", Some("6"), true, "0x10de"),
    ];
    assert_eq!(
        parts(query_linux_sysfs(&entries)),
        Some(("AMD GPU (card2)".to_string(), "AMD".to_string(), Some("5".to_string())))
    );
    assert_eq!(parts(query_linux_sysfs(&vec![])), None);
}

#[test]
fn the_adapter_line_is_taken_apart() {
    let command = adapter_command();
    assert_eq!(command.program, "powershell");
    assert_eq!(command.args.len(), 4);
    assert_eq!(
        command.args[3],
        "Get-CimInstance Win32_VideoController | Select-Object -First 1 | \
         ForEach-Object { \"$($_.Name)|$($_.AdapterCompatibility)\" }"
    );

    assert_eq!(
        parts(query_adapter_name(printed(
            "  AMD Radeon RX 6800 XT|Advanced Micro Devices, Inc.\r\n"
        ))),
        Some(("AMD Radeon RX 6800 XT".to_string(), "AMD".to_string(), None))
    );
    assert_eq!(
        parts(query_adapter_name(printed("A|B|C"))),
        Some(("A".to_string(), "B|C".to_string(), None))
    );
    assert_eq!(parts(query_adapter_name(printed("|Intel"))), None);
    assert_eq!(parts(query_adapter_name(printed("no bar"))), None);
    assert_eq!(parts(query_adapter_name(printed(""))), None);
    assert_eq!(parts(query_adapter_name(failed("A|B"))), None);
    assert_eq!(parts(query_adapter_name(Err("gone".into()))), None);
}

#[test]
fn the_best_reading_wins() {
    let reading = |name: &str| {
        Some(GpuReading {
            name: name.to_string(),
            vendor: "V".to_string(),
            usage: None,
        })
    };
    let name = |r: Option<GpuReading>| r.map(|g| g.name);
    assert_eq!(name(detect_gpu(reading("n"), reading("c"), reading("a"))), Some("n".to_string()));
    assert_eq!(name(detect_gpu(None, reading("c"), reading("a"))), Some("c".to_string()));
    assert_eq!(name(detect_gpu(None, None, reading("a"))), Some("a".to_string()));
    assert_eq!(name(detect_gpu(None, None, None)), None);
}

#[test]
fn an_unreadable_card_does_not_block_idleness() {
    assert!(is_idle(true, None));
    assert!(is_idle(true, Some(false)));
    assert!(!is_idle(true, Some(true)));
    assert!(!is_idle(false, None));
    assert!(!is_idle(false, Some(false)));
}
