//! Which graphics card the machine has, from what its tools print.
//!
//! `nvidia-smi` gives a name and a live reading; Linux shows both in its device
//! tree; elsewhere the name is known and the reading is not. A reading is kept as
//! the text that was printed.

use crate::command::{CommandLine, CommandView, ProcessOutput};
use crate::text;
use vstd::prelude::*;
use vstd::utf8::*;

verus! {

/// A graphics card.
#[derive(Debug)]
pub struct GpuReading {
    pub name: String,
    pub vendor: String,
    /// Utilisation in percent, as printed. `None` when the card is known but its
    /// utilisation cannot be read here.
    pub usage: Option<String>,
}

/// The reading has these texts.
pub open spec fn reads(
    reading: GpuReading,
    name: Seq<char>,
    vendor: Seq<char>,
    usage: Option<Seq<char>>,
) -> bool {
    &&& reading.name@ == name
    &&& reading.vendor@ == vendor
    &&& match usage {
        Some(value) => reading.usage matches Some(u) && u@ == value,
        None => reading.usage is None,
    }
}

// ---------------------------------------------------------------------------
// Lines and fields
// ---------------------------------------------------------------------------

/// The first line of a text, if it has one.
pub open spec fn first_line(printed: Seq<char>) -> Option<Seq<char>> {
    if text::lines_of(printed).len() > 0 {
        Some(text::lines_of(printed)[0])
    } else {
        None
    }
}

fn first_line_of(printed: &str) -> (line: Option<String>)
    ensures
        match line {
            Some(l) => first_line(printed@) == Some(l@),
            None => first_line(printed@) is None,
        },
{
    let lines = text::lines(printed);
    if lines.len() == 0 {
        assert(text::texts(lines@).len() == 0);
        None
    } else {
        assert(text::texts(lines@)[0] == lines@[0]@);
        Some(lines[0].clone())
    }
}

/// A text cut at the first `separator`: what stands before it, and what stands
/// behind it if it occurs.
pub open spec fn cut(line: Seq<char>, separator: char) -> (Seq<char>, Option<Seq<char>>) {
    let at = text::first_at(line, separator) as int;
    if at < line.len() {
        (line.take(at), Some(line.skip(at + 1)))
    } else {
        (line, None)
    }
}

fn cut_at(line: &str, separator: char) -> (r: (String, Option<String>))
    ensures
        r.0@ == cut(line@, separator).0,
        match r.1 {
            Some(rest) => cut(line@, separator).1 == Some(rest@),
            None => cut(line@, separator).1 is None,
        },
{
    let chars = text::chars_of(line);
    let at: usize = text::find_char(&chars, 0, separator);
    assert(chars@.skip(0) =~= line@);
    let before = text::text_of(&chars, 0, at);
    assert(before@ =~= line@.take(at as int));
    if at < chars.len() {
        let rest = text::text_of(&chars, at + 1, chars.len());
        assert(rest@ =~= line@.skip(at + 1));
        (before, Some(rest))
    } else {
        assert(before@ =~= line@);
        (before, None)
    }
}

// ---------------------------------------------------------------------------
// NVIDIA
// ---------------------------------------------------------------------------

/// Asks the NVIDIA driver's tool for the name and the utilisation of each card.
pub open spec fn nvidia_query() -> CommandView {
    CommandView {
        program: "nvidia-smi"@,
        args: seq!["--query-gpu=name,utilization.gpu"@, "--format=csv,noheader,nounits"@],
    }
}

pub fn nvidia_command() -> (command: CommandLine)
    ensures
        command@ == nvidia_query(),
{
    CommandLine {
        program: "nvidia-smi".to_owned(),
        args: text::list2("--query-gpu=name,utilization.gpu", "--format=csv,noheader,nounits"),
    }
}

/// The name and the utilisation on the first line of the tool's output: its
/// first two fields, between commas, without the white space around them.
pub open spec fn nvidia_fields(end: Result<ProcessOutput, String>) -> Option<
    (Seq<char>, Seq<char>),
> {
    match end {
        Ok(output) => if output.success && valid_utf8(output.stdout@) {
            match first_line(decode_utf8(output.stdout@)) {
                Some(line) => match cut(line, ',').1 {
                    Some(rest) => Some(
                        (text::trimmed(cut(line, ',').0), text::trimmed(cut(rest, ',').0)),
                    ),
                    None => None,
                },
                None => None,
            }
        } else {
            None
        },
        Err(_) => None,
    }
}

fn nvidia_parts(end: &Result<ProcessOutput, String>) -> (r: Option<(String, String)>)
    ensures
        match r {
            Some((name, usage)) => nvidia_fields(*end) == Some((name@, usage@)),
            None => nvidia_fields(*end) is None,
        },
{
    match end {
        Ok(output) => {
            if !output.success {
                return None;
            }
            let printed = match text::from_utf8(output.stdout.clone()) {
                Some(printed) => printed,
                None => {
                    return None;
                },
            };
            let line = match first_line_of(&printed) {
                Some(line) => line,
                None => {
                    return None;
                },
            };
            let fields = cut_at(&line, ',');
            match fields.1 {
                Some(rest) => {
                    let usage = cut_at(&rest, ',').0;
                    Some((text::trim(&fields.0), text::trim(&usage)))
                },
                None => None,
            }
        },
        Err(_) => None,
    }
}

/// The utilisation that the NVIDIA driver's tool printed, for the host to see
/// whether it is a number.
pub fn nvidia_usage(end: &Result<ProcessOutput, String>) -> (r: Option<String>)
    ensures
        match r {
            Some(usage) => nvidia_fields(*end) matches Some((_, printed)) && usage@ == printed,
            None => nvidia_fields(*end) is None,
        },
{
    match nvidia_parts(end) {
        Some((_, usage)) => Some(usage),
        None => None,
    }
}

/// This is the card that the tool reports, if its utilisation is a number.
pub open spec fn reports_nvidia(
    r: Option<GpuReading>,
    end: Result<ProcessOutput, String>,
    usage_is_number: bool,
) -> bool {
    match nvidia_fields(end) {
        Some((name, usage)) => if usage_is_number {
            r matches Some(reading) && reads(reading, name, "NVIDIA"@, Some(usage))
        } else {
            r is None
        },
        None => r is None,
    }
}

/// The card that the NVIDIA driver's tool reports, from what came of
/// [`nvidia_command`]. `usage_is_number` says that what [`nvidia_usage`] gives is
/// a number; a card without one is not reported.
pub fn query_nvidia(end: &Result<ProcessOutput, String>, usage_is_number: bool) -> (r: Option<
    GpuReading,
>)
    ensures
        match r {
            Some(reading) => usage_is_number && (nvidia_fields(*end) matches Some((name, usage))
                && reads(reading, name, "NVIDIA"@, Some(usage))),
            None => nvidia_fields(*end) is None || !usage_is_number,
        },
        reports_nvidia(r, *end, usage_is_number),
{
    match nvidia_parts(end) {
        Some((name, usage)) => {
            if usage_is_number {
                Some(GpuReading { name, vendor: "NVIDIA".to_owned(), usage: Some(usage) })
            } else {
                None
            }
        },
        None => None,
    }
}

// ---------------------------------------------------------------------------
// Linux
// ---------------------------------------------------------------------------

/// An entry of the device tree that stands for a card, not for one of its
/// connectors.
pub open spec fn is_card_name(name: Seq<char>) -> bool {
    text::begins_with(name, "card"@) && !text::occurs_in(name, "-"@)
}

pub fn is_card(name: &str) -> (r: bool)
    ensures
        r == is_card_name(name@),
{
    text::starts_with(name, "card") && !text::contains(name, "-")
}

/// The vendor behind a PCI vendor id.
pub open spec fn pci_vendor(id: Seq<char>) -> Seq<char> {
    if id == "0x1002"@ {
        "AMD"@
    } else if id == "0x8086"@ {
        "Intel"@
    } else if id == "0x10de"@ {
        "NVIDIA"@
    } else {
        "Unknown"@
    }
}

/// What the device tree holds about one of its entries.
#[derive(Debug)]
pub struct DeviceEntry {
    /// Name of the entry.
    pub name: String,
    /// What its `gpu_busy_percent` file holds, if it could be read.
    pub busy: Option<String>,
    /// That is a number, but for the white space around it.
    pub busy_is_number: bool,
    /// What its `vendor` file holds; empty when it could not be read.
    pub vendor_id: String,
}

/// The entry is a card with a reading.
pub open spec fn has_reading(entry: DeviceEntry) -> bool {
    is_card_name(entry.name@) && entry.busy is Some && entry.busy_is_number
}

/// The position of the first entry, from `from` on, that is a card with a
/// reading.
pub open spec fn first_reading(entries: Seq<DeviceEntry>, from: nat) -> Option<nat>
    decreases entries.len() - from,
{
    if from >= entries.len() {
        None
    } else if has_reading(entries[from as int]) {
        Some(from)
    } else {
        first_reading(entries, from + 1)
    }
}

/// The reading of an entry that is a card: named after its vendor and its
/// entry.
pub open spec fn reads_card(reading: GpuReading, entry: DeviceEntry) -> bool {
    let vendor = pci_vendor(text::trimmed(entry.vendor_id@));
    entry.busy matches Some(busy) && reads(
        reading,
        vendor + " GPU ("@ + entry.name@ + ")"@,
        vendor,
        Some(text::trimmed(busy@)),
    )
}

fn card_reading(name: &str, busy: &str, vendor_id: &str) -> (reading: GpuReading)
    ensures
        reads(
            reading,
            pci_vendor(text::trimmed(vendor_id@)) + " GPU ("@ + name@ + ")"@,
            pci_vendor(text::trimmed(vendor_id@)),
            Some(text::trimmed(busy@)),
        ),
{
    let id = text::trim(vendor_id);
    let vendor = if text::same_text(&id, "0x1002") {
        "AMD".to_owned()
    } else if text::same_text(&id, "0x8086") {
        "Intel".to_owned()
    } else if text::same_text(&id, "0x10de") {
        "NVIDIA".to_owned()
    } else {
        "Unknown".to_owned()
    };
    let name = text::join4(&vendor, " GPU (", name, ")");
    GpuReading { name, vendor, usage: Some(text::trim(busy)) }
}

/// The card that the device tree reports: the first with a reading.
pub fn query_linux_sysfs(entries: &Vec<DeviceEntry>) -> (r: Option<GpuReading>)
    ensures
        match r {
            Some(reading) => first_reading(entries@, 0) matches Some(at) && at < entries@.len()
                && has_reading(entries@[at as int]) && reads_card(reading, entries@[at as int]),
            None => first_reading(entries@, 0) is None,
        },
{
    let mut i: usize = 0;
    while i < entries.len()
        invariant
            i <= entries@.len(),
            first_reading(entries@, i as nat) == first_reading(entries@, 0),
        decreases entries@.len() - i,
    {
        let entry = &entries[i];
        if is_card(&entry.name) && entry.busy_is_number {
            match &entry.busy {
                Some(busy) => {
                    return Some(card_reading(&entry.name, busy, &entry.vendor_id));
                },
                None => {},
            }
        }
        i += 1;
    }
    None
}

// ---------------------------------------------------------------------------
// Windows
// ---------------------------------------------------------------------------

/// Asks Windows for the name and the maker of its first display adapter.
pub open spec fn adapter_query() -> CommandView {
    CommandView {
        program: "powershell"@,
        args: seq![
            "-NoProfile"@,
            "-NonInteractive"@,
            "-Command"@,
            "Get-CimInstance Win32_VideoController | Select-Object -First 1 | ForEach-Object { \"$($_.Name)|$($_.AdapterCompatibility)\" }"@,
        ],
    }
}

pub fn adapter_command() -> (command: CommandLine)
    ensures
        command@ == adapter_query(),
{
    CommandLine {
        program: "powershell".to_owned(),
        args: text::list4(
            "-NoProfile",
            "-NonInteractive",
            "-Command",
            "Get-CimInstance Win32_VideoController | Select-Object -First 1 | ForEach-Object { \"$($_.Name)|$($_.AdapterCompatibility)\" }",
        ),
    }
}

/// The name and the maker on the first line of the answer, on either side of
/// the first bar. A line without a bar, or without a name, gives neither.
pub open spec fn adapter_fields(end: Result<ProcessOutput, String>) -> Option<
    (Seq<char>, Seq<char>),
> {
    match end {
        Ok(output) => if output.success {
            match first_line(text::utf8_lossy(output.stdout@)) {
                Some(line) => match cut(text::trimmed(line), '|').1 {
                    Some(maker) => if cut(text::trimmed(line), '|').0.len() > 0 {
                        Some((cut(text::trimmed(line), '|').0, maker))
                    } else {
                        None
                    },
                    None => None,
                },
                None => None,
            }
        } else {
            None
        },
        Err(_) => None,
    }
}

/// The adapter that Windows reports, from what came of [`adapter_command`]. Its
/// utilisation is not known.
pub fn query_adapter_name(end: Result<ProcessOutput, String>) -> (r: Option<GpuReading>)
    ensures
        match r {
            Some(reading) => adapter_fields(end) matches Some((name, maker)) && reads(
                reading,
                name,
                normalized(maker),
                None,
            ),
            None => adapter_fields(end) is None,
        },
{
    match end {
        Ok(output) => {
            if !output.success {
                return None;
            }
            let printed = text::from_utf8_lossy(output.stdout.as_slice());
            let line = match first_line_of(&printed) {
                Some(line) => text::trim(&line),
                None => {
                    return None;
                },
            };
            let fields = cut_at(&line, '|');
            match fields.1 {
                Some(maker) => {
                    if fields.0.as_str().is_empty() {
                        None
                    } else {
                        Some(
                            GpuReading {
                                name: fields.0,
                                vendor: normalize_vendor(&maker),
                                usage: None,
                            },
                        )
                    }
                },
                None => None,
            }
        },
        Err(_) => None,
    }
}

/// The vendor behind a maker's name, given that name in lower case as well.
///
/// NVIDIA and Intel come first: "NVIDIA Corporation" holds "ati", so that a
/// loose look for AMD would find it there.
pub open spec fn vendor_name(raw: Seq<char>, lower: Seq<char>) -> Seq<char> {
    if text::occurs_in(lower, "nvidia"@) {
        "NVIDIA"@
    } else if text::occurs_in(lower, "intel"@) {
        "Intel"@
    } else if text::occurs_in(lower, "advanced micro"@) || text::occurs_in(lower, "amd"@)
        || text::occurs_in(lower, "ati technologies"@) {
        "AMD"@
    } else if text::trimmed(raw).len() == 0 {
        "Unknown"@
    } else {
        text::trimmed(raw)
    }
}

/// The vendor that a maker's name gives.
pub open spec fn normalized(raw: Seq<char>) -> Seq<char> {
    vendor_name(raw, text::lowercase(raw))
}

/// The vendor behind a maker's name whose lower-case form is `lower`.
pub fn vendor_from(raw: &str, lower: &str) -> (vendor: String)
    ensures
        vendor@ == vendor_name(raw@, lower@),
{
    if text::contains(lower, "nvidia") {
        "NVIDIA".to_owned()
    } else if text::contains(lower, "intel") {
        "Intel".to_owned()
    } else if text::contains(lower, "advanced micro") || text::contains(lower, "amd")
        || text::contains(lower, "ati technologies") {
        "AMD".to_owned()
    } else {
        let trimmed = text::trim(raw);
        if trimmed.as_str().is_empty() {
            "Unknown".to_owned()
        } else {
            trimmed
        }
    }
}

/// The vendor behind a maker's name.
pub fn normalize_vendor(raw: &str) -> (vendor: String)
    ensures
        vendor@ == normalized(raw@),
{
    vendor_from(raw, &text::to_lowercase(raw))
}

// ---------------------------------------------------------------------------
// Idleness
// ---------------------------------------------------------------------------

/// The machine counts as idle.
pub open spec fn counts_as_idle(cpu_is_calm: bool, gpu_is_busy: Option<bool>) -> bool {
    match gpu_is_busy {
        Some(busy) => cpu_is_calm && !busy,
        None => cpu_is_calm,
    }
}

/// Whether the machine is idle. A card whose utilisation cannot be read does not
/// stand in the way: the processor's reading still does.
pub fn is_idle(cpu_is_calm: bool, gpu_is_busy: Option<bool>) -> (r: bool)
    ensures
        r == (cpu_is_calm && gpu_is_busy != Some(true)),
        r == counts_as_idle(cpu_is_calm, gpu_is_busy),
{
    match gpu_is_busy {
        Some(busy) => cpu_is_calm && !busy,
        None => cpu_is_calm,
    }
}

/// The card to report: the first of the three that is there.
pub open spec fn reported_card(
    nvidia: Option<GpuReading>,
    card: Option<GpuReading>,
    adapter: Option<GpuReading>,
) -> Option<GpuReading> {
    match (nvidia, card) {
        (Some(_), _) => nvidia,
        (None, Some(_)) => card,
        (None, None) => adapter,
    }
}

/// Picks the card to report: what the NVIDIA tool says, else what the device
/// tree says, else the adapter's name.
pub fn detect_gpu(
    nvidia: Option<GpuReading>,
    card: Option<GpuReading>,
    adapter: Option<GpuReading>,
) -> (r: Option<GpuReading>)
    ensures
        r == if nvidia is Some {
            nvidia
        } else if card is Some {
            card
        } else {
            adapter
        },
        r == reported_card(nvidia, card, adapter),
{
    if nvidia.is_some() {
        nvidia
    } else if card.is_some() {
        card
    } else {
        adapter
    }
}

// ---------------------------------------------------------------------------
// Laws
// ---------------------------------------------------------------------------

/// The name, in lower case, holds a word that gives away one of the three
/// vendors.
pub open spec fn names_a_vendor(lower: Seq<char>) -> bool {
    ||| text::occurs_in(lower, "nvidia"@)
    ||| text::occurs_in(lower, "intel"@)
    ||| text::occurs_in(lower, "advanced micro"@)
    ||| text::occurs_in(lower, "amd"@)
    ||| text::occurs_in(lower, "ati technologies"@)
}

/// A vendor is never empty and has no white space around it. A maker's name that
/// gives away none of the three vendors is kept in its own case, or is unknown
/// when it is blank.
pub proof fn law_a_vendor_is_a_trimmed_name(raw: Seq<char>)
    ensures
        normalized(raw).len() > 0,
        text::trimmed(normalized(raw)) == normalized(raw),
        !names_a_vendor(text::lowercase(raw)) ==> normalized(raw) == if text::trimmed(raw).len()
            == 0 {
            "Unknown"@
        } else {
            text::trimmed(raw)
        },
{
    reveal_strlit("NVIDIA");
    reveal_strlit("Intel");
    reveal_strlit("AMD");
    reveal_strlit("Unknown");
    text::lemma_trimmed(raw);
}

/// A word that occurs in a part of a text occurs in the text.
proof fn lemma_occurs_in_part(whole: Seq<char>, from: int, to: int, word: Seq<char>)
    requires
        0 <= from <= to <= whole.len(),
        text::occurs_in(whole.subrange(from, to), word),
    ensures
        text::occurs_in(whole, word),
{
    let part = whole.subrange(from, to);
    let at = choose|at: int| text::stands_at(part, word, at);
    assert(whole.subrange(from + at, from + at + word.len()) =~= part.subrange(
        at,
        at + word.len(),
    ));
    assert(text::stands_at(whole, word, from + at));
}

/// The lower-case form of what is left of an ASCII text when it is trimmed is a
/// part of the lower-case form of the whole.
proof fn lemma_trimmed_lowercase(raw: Seq<char>)
    requires
        is_ascii_chars(raw),
        names_a_vendor(text::lowercase(text::trimmed(raw))),
    ensures
        names_a_vendor(text::lowercase(raw)),
{
    let (from, to) = text::lemma_trimmed(raw);
    let part = text::trimmed(raw);
    let lower = text::lowercase(raw);
    assert(is_ascii_chars(part));
    assert(text::lowercase(part) =~= lower.subrange(from, to));
    if text::occurs_in(text::lowercase(part), "nvidia"@) {
        lemma_occurs_in_part(lower, from, to, "nvidia"@);
    } else if text::occurs_in(text::lowercase(part), "intel"@) {
        lemma_occurs_in_part(lower, from, to, "intel"@);
    } else if text::occurs_in(text::lowercase(part), "advanced micro"@) {
        lemma_occurs_in_part(lower, from, to, "advanced micro"@);
    } else if text::occurs_in(text::lowercase(part), "amd"@) {
        lemma_occurs_in_part(lower, from, to, "amd"@);
    } else {
        lemma_occurs_in_part(lower, from, to, "ati technologies"@);
    }
}

proof fn lemma_nvidia_is_normal()
    ensures
        normalized("NVIDIA"@) == "NVIDIA"@,
{
    reveal_strlit("NVIDIA");
    reveal_strlit("nvidia");
    assert(text::lowercase("NVIDIA"@) =~= "nvidia"@);
    lemma_occurs_in_itself("nvidia"@);
}

proof fn lemma_intel_is_normal()
    ensures
        normalized("Intel"@) == "Intel"@,
{
    reveal_strlit("Intel");
    reveal_strlit("intel");
    reveal_strlit("nvidia");
    assert(text::lowercase("Intel"@) =~= "intel"@);
    lemma_absent("intel"@, "nvidia"@);
    lemma_occurs_in_itself("intel"@);
}

proof fn lemma_amd_is_normal()
    ensures
        normalized("AMD"@) == "AMD"@,
{
    reveal_strlit("AMD");
    reveal_strlit("amd");
    reveal_strlit("nvidia");
    reveal_strlit("intel");
    assert(text::lowercase("AMD"@) =~= "amd"@);
    lemma_absent("amd"@, "nvidia"@);
    lemma_absent("amd"@, "intel"@);
    lemma_occurs_in_itself("amd"@);
}

/// The unknown vendor's name gives away none of the three.
proof fn lemma_unknown_names_no_vendor()
    ensures
        !names_a_vendor("unknown"@),
{
    reveal_strlit("unknown");
    reveal_strlit("nvidia");
    reveal_strlit("intel");
    reveal_strlit("advanced micro");
    reveal_strlit("amd");
    reveal_strlit("ati technologies");
    lemma_absent("unknown"@, "intel"@);
    lemma_absent("unknown"@, "advanced micro"@);
    lemma_absent("unknown"@, "amd"@);
    lemma_absent("unknown"@, "ati technologies"@);
    assert forall|at: int| !text::stands_at("unknown"@, "nvidia"@, at) by {
        if text::stands_at("unknown"@, "nvidia"@, at) {
            assert("unknown"@.subrange(at, at + 6)[1] == "unknown"@[at + 1]);
        }
    }
}

proof fn lemma_unknown_is_normal()
    ensures
        normalized("Unknown"@) == "Unknown"@,
{
    lemma_unknown_names_no_vendor();
    reveal_strlit("Unknown");
    reveal_strlit("unknown");
    assert(text::lowercase("Unknown"@) =~= "unknown"@);
    text::lemma_trimmed("Unknown"@);
}

proof fn lemma_occurs_in_itself(word: Seq<char>)
    ensures
        text::occurs_in(word, word),
{
    assert(word.subrange(0, word.len() as int) =~= word);
    assert(text::stands_at(word, word, 0));
}

/// A word whose first letter a text does not hold, or that is longer than the
/// text, does not occur in it.
proof fn lemma_absent(whole: Seq<char>, word: Seq<char>)
    requires
        word.len() > 0,
        word.len() > whole.len() || !whole.contains(word[0]),
    ensures
        !text::occurs_in(whole, word),
{
    assert forall|at: int| !text::stands_at(whole, word, at) by {
        if text::stands_at(whole, word, at) {
            assert(whole.subrange(at, at + word.len())[0] == whole[at]);
        }
    }
}

/// Normalising a vendor is done once: normalising the vendor again gives the same
/// vendor. This is shown of every maker's name but one outside ASCII that gives away
/// none of the three vendors and has white space around it: nothing is known of how
/// the lower-case form of such a text and that of its trimmed part belong together.
pub proof fn law_a_vendor_is_normal(raw: Seq<char>)
    requires
        is_ascii_chars(raw) || names_a_vendor(text::lowercase(raw)) || text::trimmed(raw) == raw
            || text::trimmed(raw).len() == 0,
    ensures
        normalized(normalized(raw)) == normalized(raw),
{
    lemma_nvidia_is_normal();
    lemma_intel_is_normal();
    lemma_amd_is_normal();
    lemma_unknown_is_normal();
    if !names_a_vendor(text::lowercase(raw)) && text::trimmed(raw).len() > 0 {
        if is_ascii_chars(raw) && names_a_vendor(text::lowercase(text::trimmed(raw))) {
            lemma_trimmed_lowercase(raw);
        }
        text::lemma_trimmed(raw);
    }
}

/// Whatever the maker's name is, a vendor that was normalised twice stays as it is.
pub proof fn law_a_vendor_settles(raw: Seq<char>)
    ensures
        normalized(normalized(normalized(raw))) == normalized(normalized(raw)),
{
    law_a_vendor_is_a_trimmed_name(raw);
    law_a_vendor_is_normal(normalized(raw));
}

/// A reading is modelled text for text.
pub proof fn law_a_reading_stands_for_itself(
    reading: GpuReading,
    name: Seq<char>,
    vendor: Seq<char>,
    usage: Option<Seq<char>>,
)
    ensures
        reads(reading, name, vendor, usage) <==> {
            &&& reading.name@ == name
            &&& reading.vendor@ == vendor
            &&& usage is Some <==> reading.usage is Some
            &&& usage is Some ==> reading.usage->0@ == usage->0
        },
{
}

/// A text is cut at the first separator: what stands before it comes first, whole,
/// and all that stands behind it comes second.
pub proof fn law_a_text_is_cut_once(before: Seq<char>, separator: char, after: Seq<char>)
    requires
        !before.contains(separator),
    ensures
        cut(before + seq![separator] + after, separator) == (before, Some(after)),
        cut(before, separator) == (before, None::<Seq<char>>),
{
    let whole = before + seq![separator] + after;
    let at = before.len();
    assert forall|i: int| 0 <= i < at implies before[i] != separator by {
        assert(before.contains(before[i]));
    }
    text::lemma_first_at_unique(whole, separator, at);
    text::lemma_first_at_unique(before, separator, at);
    assert(whole.take(at as int) =~= before);
    assert(whole.skip(at as int + 1) =~= after);
}

/// What the NVIDIA driver's tool prints about its first card is read off its first
/// line: the name before the first comma, the utilisation up to the next one, each
/// without the white space around it. More fields and more cards make no difference.
#[verifier::rlimit(40)]
pub proof fn law_the_first_nvidia_card_is_read(
    output: ProcessOutput,
    name: Seq<char>,
    usage: Seq<char>,
    more: Seq<char>,
    rest: Seq<char>,
)
    requires
        output.success,
        !name.contains(',') && !name.contains('\n'),
        !usage.contains(',') && !usage.contains('\n') && !usage.contains('\r'),
        !more.contains('\n') && !more.contains('\r'),
    ensures
        output.stdout@ == encode_utf8(name + seq![','] + usage + seq!['\n'] + rest)
            ==> nvidia_fields(Ok(output)) == Some((text::trimmed(name), text::trimmed(usage))),
        output.stdout@ == encode_utf8(
            name + seq![','] + usage + seq![','] + more + seq!['\n'] + rest,
        ) ==> nvidia_fields(Ok(output)) == Some((text::trimmed(name), text::trimmed(usage))),
{
    let short = name + seq![','] + usage;
    let long = short + seq![','] + more;
    lemma_no_newline(name, ',', usage);
    lemma_no_newline(short, ',', more);
    lemma_plain_end(name, usage);
    lemma_plain_end(short, more);
    lemma_first_line(short, rest);
    lemma_first_line(long, rest);
    encode_utf8_valid_utf8(short + seq!['\n'] + rest);
    encode_utf8_decode_utf8(short + seq!['\n'] + rest);
    encode_utf8_valid_utf8(long + seq!['\n'] + rest);
    encode_utf8_decode_utf8(long + seq!['\n'] + rest);
    law_a_text_is_cut_once(name, ',', usage);
    law_a_text_is_cut_once(name, ',', usage + seq![','] + more);
    assert(long =~= name + seq![','] + (usage + seq![','] + more));
    law_a_text_is_cut_once(usage, ',', more);
}

proof fn lemma_no_newline(a: Seq<char>, c: char, b: Seq<char>)
    requires
        !a.contains('\n'),
        !b.contains('\n'),
        c != '\n',
    ensures
        !(a + seq![c] + b).contains('\n'),
{
    let whole = a + seq![c] + b;
    if whole.contains('\n') {
        let i = choose|i: int| 0 <= i < whole.len() && whole[i] == '\n';
        if i < a.len() {
            assert(a[i] == '\n');
        } else if i > a.len() {
            assert(b[i - a.len() - 1] == '\n');
        }
    }
}

proof fn lemma_plain_end(a: Seq<char>, b: Seq<char>)
    requires
        !b.contains('\r'),
    ensures
        (a + seq![','] + b).last() != '\r',
{
    if b.len() > 0 {
        assert(b.contains(b.last()));
        assert((a + seq![','] + b).last() == b.last());
    } else {
        assert((a + seq![','] + b).last() == ',');
    }
}

proof fn lemma_first_line(line: Seq<char>, rest: Seq<char>)
    requires
        !line.contains('\n'),
        line.len() > 0 && line.last() != '\r',
    ensures
        first_line(line + seq!['\n'] + rest) == Some(line),
        first_line(line) == Some(line),
{
    text::law_a_line_comes_off(line, rest);
}

/// A tool that failed, or printed no UTF-8, or has no comma on its first line,
/// reports no card.
pub proof fn law_no_card_without_an_answer(output: ProcessOutput, e: String, line: Seq<char>)
    requires
        !line.contains(','),
        !line.contains('\n') && !line.contains('\r'),
    ensures
        nvidia_fields(Err(e)) is None,
        adapter_fields(Err(e)) is None,
        !output.success ==> nvidia_fields(Ok(output)) is None && adapter_fields(Ok(output)) is None,
        !valid_utf8(output.stdout@) ==> nvidia_fields(Ok(output)) is None,
        output.stdout@ == encode_utf8(line) ==> nvidia_fields(Ok(output)) is None,
{
    encode_utf8_valid_utf8(line);
    encode_utf8_decode_utf8(line);
    if line.len() > 0 {
        assert(line.contains(line.last()));
        lemma_first_line(line, Seq::empty());
        law_a_text_is_cut_once(line, ',', Seq::empty());
    } else {
        text::law_a_line_comes_off(line, Seq::empty());
        assert(line =~= Seq::<char>::empty());
    }
}

/// What Windows prints about its adapter is read off its first line: the name before
/// the first bar and the maker behind it. A line without a name gives neither.
pub proof fn law_the_adapter_is_read(
    output: ProcessOutput,
    name: Seq<char>,
    maker: Seq<char>,
    rest: Seq<char>,
)
    requires
        output.success,
        !name.contains('|') && !name.contains('\n'),
        !maker.contains('\n'),
        name.len() > 0 ==> !text::is_white_space(name[0]),
        maker.len() > 0,
        !text::is_white_space(maker.last()),
        output.stdout@ == encode_utf8(name + seq!['|'] + maker + seq!['\n'] + rest)
            || output.stdout@ == encode_utf8(name + seq!['|'] + maker + seq!['\r', '\n'] + rest),
    ensures
        name.len() > 0 ==> adapter_fields(Ok(output)) == Some((name, maker)),
        name.len() == 0 ==> adapter_fields(Ok(output)) is None,
{
    let line = name + seq!['|'] + maker;
    let none = Seq::<char>::empty();
    lemma_no_newline(name, '|', maker);
    assert(line.last() == maker.last());
    text::law_utf8_comes_back(line + seq!['\n'] + rest, output.stdout@);
    text::law_utf8_comes_back(line + seq!['\r', '\n'] + rest, output.stdout@);
    text::law_a_line_comes_off(line, rest);
    law_a_text_is_cut_once(name, '|', maker);
    text::law_trimming_keeps_what_stands_between(none, line, none);
    assert(none + line + none =~= line);
}

/// A PCI vendor id stands for its vendor.
pub proof fn law_pci_ids_stand_for_vendors(id: Seq<char>)
    ensures
        pci_vendor("0x1002"@) == "AMD"@,
        pci_vendor("0x8086"@) == "Intel"@,
        pci_vendor("0x10de"@) == "NVIDIA"@,
        id != "0x1002"@ && id != "0x8086"@ && id != "0x10de"@ ==> pci_vendor(id) == "Unknown"@,
{
    reveal_strlit("0x1002");
    reveal_strlit("0x8086");
    reveal_strlit("0x10de");
    assert("0x1002"@[2] != "0x8086"@[2]);
    assert("0x1002"@[4] != "0x10de"@[4]);
    assert("0x8086"@[2] != "0x10de"@[2]);
}

/// The card that is taken is the first entry of the device tree that is a card, not
/// a connector, and has a number for its utilisation. It is named after its vendor
/// and its entry.
pub proof fn law_the_first_card_with_a_reading_is_taken(entries: Seq<DeviceEntry>, from: nat)
    ensures
        first_reading(entries, from) matches Some(at) ==> {
            &&& from <= at < entries.len()
            &&& is_readable_card(entries[at as int])
            &&& forall|i: int| from <= i < at ==> !is_readable_card(#[trigger] entries[i])
        },
        first_reading(entries, from) is None ==> forall|i: int|
            from <= i < entries.len() ==> !is_readable_card(#[trigger] entries[i]),
    decreases entries.len() - from,
{
    reveal_strlit("-");
    if from < entries.len() {
        let entry = entries[from as int];
        let name = entry.name@;
        if name.contains('-') {
            let i = choose|i: int| 0 <= i < name.len() && name[i] == '-';
            assert(name.subrange(i, i + 1) =~= "-"@);
            assert(text::stands_at(name, "-"@, i));
        }
        if text::occurs_in(name, "-"@) {
            let at = choose|at: int| text::stands_at(name, "-"@, at);
            assert(name.subrange(at, at + 1)[0] == name[at]);
            assert(name.contains('-'));
        }
        assert(has_reading(entry) == is_readable_card(entry));
        if !has_reading(entry) {
            law_the_first_card_with_a_reading_is_taken(entries, from + 1);
        }
    }
}

/// The entry's name begins with `card` and holds no dash, and its utilisation is
/// known as a number.
pub open spec fn is_readable_card(entry: DeviceEntry) -> bool {
    &&& text::begins_with(entry.name@, "card"@)
    &&& !entry.name@.contains('-')
    &&& entry.busy is Some
    &&& entry.busy_is_number
}

/// The reading of a card has all of its entry's name, its vendor, and its whole
/// utilisation without the white space around it.
pub proof fn law_a_card_is_read_whole(reading: GpuReading, entry: DeviceEntry)
    requires
        reads_card(reading, entry),
    ensures
        entry.busy is Some,
        reading.vendor@ == pci_vendor(text::trimmed(entry.vendor_id@)),
        reading.name@ == reading.vendor@ + " GPU ("@ + entry.name@ + ")"@,
        reading.usage is Some && reading.usage->0@ == text::trimmed(entry.busy->0@),
{
}

/// A maker's name gives its vendor away by a word in it, in whichever case, and
/// NVIDIA and Intel come before AMD.
pub proof fn law_a_word_gives_the_vendor_away(
    before: Seq<char>,
    word: Seq<char>,
    after: Seq<char>,
    raw: Seq<char>,
)
    requires
        text::lowercase(raw) == before + word + after,
    ensures
        word == "nvidia"@ ==> normalized(raw) == "NVIDIA"@,
        word == "intel"@ && !text::occurs_in(text::lowercase(raw), "nvidia"@) ==> normalized(raw)
            == "Intel"@,
        (word == "amd"@ || word == "advanced micro"@ || word == "ati technologies"@)
            && !text::occurs_in(text::lowercase(raw), "nvidia"@) && !text::occurs_in(
            text::lowercase(raw),
            "intel"@,
        ) ==> normalized(raw) == "AMD"@,
{
    text::law_parts_are_found(before, word, after);
}

/// A machine is idle when its processor is calm and its card is not known to be busy,
/// and never otherwise.
pub proof fn law_a_busy_machine_is_not_idle(cpu_is_calm: bool, gpu_is_busy: Option<bool>)
    ensures
        !cpu_is_calm ==> !counts_as_idle(cpu_is_calm, gpu_is_busy),
        gpu_is_busy == Some(true) ==> !counts_as_idle(cpu_is_calm, gpu_is_busy),
        counts_as_idle(true, None),
        counts_as_idle(true, Some(false)),
{
}

/// The card that is reported is one of the three, and the first that there is: none is
/// reported only when there is none.
pub proof fn law_the_first_card_is_reported(
    nvidia: Option<GpuReading>,
    card: Option<GpuReading>,
    adapter: Option<GpuReading>,
)
    ensures
        nvidia is Some ==> reported_card(nvidia, card, adapter) == nvidia,
        nvidia is None && card is Some ==> reported_card(nvidia, card, adapter) == card,
        nvidia is None && card is None ==> reported_card(nvidia, card, adapter) == adapter,
{
}

/// The NVIDIA card is reported with all of its name and its utilisation as printed,
/// but only when that is a number.
pub proof fn law_an_nvidia_card_is_reported_whole(
    r: Option<GpuReading>,
    output: ProcessOutput,
    usage_is_number: bool,
    name: Seq<char>,
    usage: Seq<char>,
    rest: Seq<char>,
)
    requires
        reports_nvidia(r, Ok(output), usage_is_number),
        output.success,
        !name.contains(',') && !name.contains('\n'),
        !usage.contains(',') && !usage.contains('\n') && !usage.contains('\r'),
        output.stdout@ == encode_utf8(name + seq![','] + usage + seq!['\n'] + rest)
            || output.stdout@ == encode_utf8(name + seq![','] + usage),
    ensures
        !usage_is_number ==> r is None,
        usage_is_number ==> (r matches Some(reading) && {
            &&& reading.name@ == text::trimmed(name)
            &&& reading.vendor@ == "NVIDIA"@
            &&& reading.usage is Some && reading.usage->0@ == text::trimmed(usage)
        }),
{
    let line = name + seq![','] + usage;
    law_the_first_nvidia_card_is_read(output, name, usage, Seq::empty(), rest);
    lemma_no_newline(name, ',', usage);
    lemma_plain_end(name, usage);
    lemma_first_line(line, rest);
    encode_utf8_valid_utf8(line);
    encode_utf8_decode_utf8(line);
    law_a_text_is_cut_once(name, ',', usage);
    law_a_text_is_cut_once(usage, ',', Seq::empty());
}

/// White space around the adapter's line makes no difference, and a line without a
/// bar gives no adapter.
#[verifier::rlimit(40)]
pub proof fn law_the_adapters_line_is_trimmed(
    output: ProcessOutput,
    before: Seq<char>,
    name: Seq<char>,
    maker: Seq<char>,
    after: Seq<char>,
)
    requires
        output.success,
        text::is_blank(before) && !before.contains('\n'),
        text::is_blank(after) && !after.contains('\n') && !after.contains('\r'),
        !name.contains('|') && !name.contains('\n') && name.len() > 0,
        !text::is_white_space(name[0]) && !text::is_white_space(name.last()),
        !maker.contains('\n') && maker.len() > 0,
        !text::is_white_space(maker.last()),
    ensures
        output.stdout@ == encode_utf8(before + (name + seq!['|'] + maker) + after)
            ==> adapter_fields(Ok(output)) == Some((name, maker)),
        output.stdout@ == encode_utf8(before + name + after) ==> adapter_fields(Ok(output)) is None,
{
    let line = name + seq!['|'] + maker;
    let whole = before + line + after;
    let bare = before + name + after;
    lemma_no_newline(name, '|', maker);
    lemma_free_of_newlines(before, line, after);
    lemma_free_of_newlines(before, name, after);
    text::law_utf8_comes_back(whole, output.stdout@);
    text::law_utf8_comes_back(bare, output.stdout@);
    text::law_a_line_comes_off(whole, Seq::empty());
    text::law_a_line_comes_off(bare, Seq::empty());
    assert(line.last() == maker.last());
    text::law_trimming_keeps_what_stands_between(before, line, after);
    text::law_trimming_keeps_what_stands_between(before, name, after);
    law_a_text_is_cut_once(name, '|', maker);
}

proof fn lemma_free_of_newlines(a: Seq<char>, b: Seq<char>, c: Seq<char>)
    requires
        !a.contains('\n') && !b.contains('\n') && !c.contains('\n'),
    ensures
        !(a + b + c).contains('\n'),
{
    let whole = a + b + c;
    if whole.contains('\n') {
        let i = choose|i: int| 0 <= i < whole.len() && whole[i] == '\n';
        if i < a.len() {
            assert(a[i] == '\n');
        } else if i < a.len() + b.len() {
            assert(b[i - a.len()] == '\n');
        } else {
            assert(c[i - a.len() - b.len()] == '\n');
        }
    }
}

/// Which entries of the device tree are cards, and which vendor a lower-case form
/// gives away, whatever the name is that it belongs to.
pub proof fn law_cards_and_vendors_go_by_their_names(
    name: Seq<char>,
    raw: Seq<char>,
    lower: Seq<char>,
)
    ensures
        is_card_name(name) <==> text::begins_with(name, "card"@) && !name.contains('-'),
        text::occurs_in(lower, "nvidia"@) ==> vendor_name(raw, lower) == "NVIDIA"@,
        !text::occurs_in(lower, "nvidia"@) && text::occurs_in(lower, "intel"@) ==> vendor_name(
            raw,
            lower,
        ) == "Intel"@,
        !text::occurs_in(lower, "nvidia"@) && !text::occurs_in(lower, "intel"@) && (
        text::occurs_in(lower, "amd"@) || text::occurs_in(lower, "advanced micro"@)
            || text::occurs_in(lower, "ati technologies"@)) ==> vendor_name(raw, lower) == "AMD"@,
        !names_a_vendor(lower) && text::is_blank(raw) ==> vendor_name(raw, lower) == "Unknown"@,
        !names_a_vendor(lower) && !text::is_blank(raw) ==> vendor_name(raw, lower)
            == text::trimmed(raw),
{
    reveal_strlit("-");
    if name.contains('-') {
        let i = choose|i: int| 0 <= i < name.len() && name[i] == '-';
        assert(name.subrange(i, i + 1) =~= "-"@);
        assert(text::stands_at(name, "-"@, i));
    }
    if text::occurs_in(name, "-"@) {
        let at = choose|at: int| text::stands_at(name, "-"@, at);
        assert(name.subrange(at, at + 1)[0] == name[at]);
        assert(name.contains('-'));
    }
    text::law_trimming_takes_white_space_only(raw);
}

} // verus!
