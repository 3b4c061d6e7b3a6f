//! Where containers run.
//!
//! Jobs run inside a WSL2 distro that the node provisions, driving Podman. Every
//! command line built here goes through `wsl -d <distro> --`, so an engine that
//! happens to be installed on the host is never reached.
//!
//! Files cross into a container as a tar stream on standard input, and out of it
//! as a tar stream on standard output: no host directory is named on a
//! container command line.

use crate::command::{CommandLine, CommandView, ProcessOutput, complaint, complaint_of};
use crate::text;
use std::io::Read;
use vstd::prelude::*;
use vstd::slice::slice_subrange;
use vstd::utf8::*;

verus! {

/// Distro used when none is configured.
pub const DEFAULT_WSL_DISTRO: &'static str = "SpareCycles";

/// Where the runtime image installs gVisor.
pub const RUNSC_PATH: &'static str = "/usr/local/bin/runsc";

/// The container CLI, shipped inside the runtime rather than found on the host.
pub const CONTAINER_CLI: &'static str = "podman";

/// Permission bits of a file handed to a container.
pub const FILE_MODE: u32 = 0o644;

/// How to ask for gVisor: by path, since Podman has no registry of runtimes to
/// look a name up in.
pub fn gvisor_runtime_flag() -> (flag: String)
    ensures
        flag@ == "--runtime="@ + RUNSC_PATH@,
{
    text::join2("--runtime=", RUNSC_PATH)
}

#[derive(Debug, PartialEq, Eq)]
pub enum Engine {
    /// Podman inside a WSL2 distro that the node provisions.
    Wsl { distro: String },
}

impl Clone for Engine {
    fn clone(&self) -> (copy: Self)
        ensures
            copy.distro_name() == self.distro_name(),
    {
        match self {
            Engine::Wsl { distro } => Engine::Wsl { distro: distro.clone() },
        }
    }
}

/// `program` with `args`, run inside `distro`.
pub open spec fn inside(distro: Seq<char>, program: Seq<char>, args: Seq<Seq<char>>) -> CommandView {
    CommandView { program: "wsl"@, args: seq!["-d"@, distro, "--"@, program] + args }
}

/// Podman with `args`, run inside `distro`.
pub open spec fn podman(distro: Seq<char>, args: Seq<Seq<char>>) -> CommandView {
    inside(distro, CONTAINER_CLI@, args)
}

/// The command runs inside `distro`.
pub open spec fn runs_inside(command: CommandView, distro: Seq<char>) -> bool {
    &&& command.program == "wsl"@
    &&& command.args.len() >= 4
    &&& command.args[0] == "-d"@
    &&& command.args[1] == distro
    &&& command.args[2] == "--"@
}

/// Where jobs run, in words.
pub open spec fn engine_description(distro: Seq<char>) -> Seq<char> {
    "Podman in the '"@ + distro + "' WSL2 distro"@
}

impl Engine {
    /// Name of the distro that the engine runs in.
    pub open spec fn distro_name(self) -> Seq<char> {
        match self {
            Engine::Wsl { distro } => distro@,
        }
    }

    /// The command line that runs the container CLI in the right place.
    pub fn cmd(&self) -> (command: CommandLine)
        ensures
            command@ == podman(self.distro_name(), Seq::empty()),
    {
        self.host_cmd(CONTAINER_CLI)
    }

    /// The command line that runs any program inside the engine's environment:
    /// used to check for gVisor, which the CLI does not report reliably.
    pub fn host_cmd(&self, program: &str) -> (command: CommandLine)
        ensures
            command@ == inside(self.distro_name(), program@, Seq::empty()),
    {
        match self {
            Engine::Wsl { distro } => {
                let command = CommandLine {
                    program: "wsl".to_owned(),
                    args: text::list4("-d", distro, "--", program),
                };
                assert(command@.args =~= inside(distro@, program@, Seq::empty()).args);
                command
            },
        }
    }

    /// The container CLI with arguments.
    pub fn cmd_with(&self, args: Vec<String>) -> (command: CommandLine)
        ensures
            command@ == podman(self.distro_name(), text::texts(args@)),
    {
        let mut command = self.cmd();
        let mut args = args;
        let ghost base = command.args@;
        let ghost extra = args@;
        command.args.append(&mut args);
        assert(text::texts(command.args@) =~= text::texts(base) + text::texts(extra));
        assert(command@.args =~= podman(self.distro_name(), text::texts(extra)).args);
        command
    }

    /// Where jobs run, in words for a dashboard.
    pub fn describe(&self) -> (words: String)
        ensures
            words@ == engine_description(self.distro_name()),
    {
        match self {
            Engine::Wsl { distro } => text::join3("Podman in the '", distro, "' WSL2 distro"),
        }
    }
}

// ---------------------------------------------------------------------------
// Tar archives of one file
// ---------------------------------------------------------------------------

/// Longest name, in bytes of UTF-8, that a tar header has room for.
pub const NAME_BYTES: usize = 100;

/// Size of the blocks that a tar archive is made of.
pub const BLOCK_BYTES: usize = 512;

/// A path that means the same on every platform: it holds no separator and no
/// drive of one platform alone.
pub open spec fn is_portable(name: Seq<char>) -> bool {
    !name.contains('\\') && !name.contains(':')
}

/// `part` is the component of a path that stands at `at`, between slashes.
pub open spec fn component_at(name: Seq<char>, part: Seq<char>, at: int) -> bool {
    text::stands_at(name, part, at) && (at == 0 || name[at - 1] == '/') && (at + part.len()
        == name.len() || name[at + part.len()] == '/')
}

/// `part` is one of the components of a path.
pub open spec fn has_component(name: Seq<char>, part: Seq<char>) -> bool {
    exists|at: int| component_at(name, part, at)
}

/// A path that leads downwards from where it is unpacked, on every platform.
pub open spec fn is_relative_path(name: Seq<char>) -> bool {
    &&& name.len() > 0
    &&& name[0] != '/'
    &&& is_portable(name)
    &&& !name.contains('\0')
    &&& !has_component(name, ".."@)
}

/// A name that never gets into an archive: one that leads to the root, or a short
/// one that is empty, leads upwards or holds a NUL.
pub open spec fn is_refused_name(name: Seq<char>) -> bool {
    ||| name.len() > 0 && name[0] == '/'
    ||| encode_utf8(name).len() < NAME_BYTES && (name.len() == 0 || has_component(name, ".."@)
        || name.contains('\0'))
}

/// As much of a name as a tar header has room for.
pub open spec fn header_name(name: Seq<char>) -> Seq<char>
    decreases name.len(),
{
    if name.len() == 0 || encode_utf8(name).len() <= NAME_BYTES {
        name
    } else {
        header_name(name.drop_last())
    }
}

/// No component of a path is left here but those that stay where they are.
pub open spec fn stays(rest: Seq<char>) -> bool {
    forall|i: int|
        0 <= i < rest.len() ==> #[trigger] rest[i] == '/' || (rest[i] == '.' && i > 0 && rest[i - 1]
            == '/')
}

/// A portable name that gets into an archive. Of one that fills the room in the
/// header only what stands there is looked at, and it may end in a component that
/// seems to lead upwards: more of it may stand elsewhere.
pub open spec fn is_accepted_name(name: Seq<char>) -> bool {
    if encode_utf8(name).len() < NAME_BYTES {
        is_relative_path(name)
    } else {
        &&& name.len() > 0
        &&& name[0] != '/'
        &&& is_portable(name)
        &&& !header_name(name).contains('\0')
        &&& forall|at: int| #[trigger]
            component_at(header_name(name), ".."@, at) ==> stays(header_name(name).skip(at + 2))
    }
}

/// A name that may get into an archive, on some platform.
pub open spec fn may_be_accepted(name: Seq<char>) -> bool {
    !is_refused_name(name) && (is_portable(name) ==> is_accepted_name(name))
}

/// A name that may not get into an archive, on some platform.
pub open spec fn may_be_refused(name: Seq<char>) -> bool {
    is_portable(name) ==> !is_accepted_name(name)
}

proof fn lemma_header_name_begins(name: Seq<char>)
    ensures
        header_name(name).len() <= name.len(),
        header_name(name) == name.take(header_name(name).len() as int),
    decreases name.len(),
{
    if name.len() == 0 || encode_utf8(name).len() <= NAME_BYTES {
        assert(name.take(name.len() as int) =~= name);
    } else {
        lemma_header_name_begins(name.drop_last());
        let length = header_name(name).len() as int;
        assert(name.drop_last().take(length) =~= name.take(length));
    }
}

/// Every relative path gets into an archive, however long it is.
pub proof fn law_a_relative_path_is_accepted(name: Seq<char>)
    requires
        is_relative_path(name),
    ensures
        is_accepted_name(name),
        !may_be_refused(name),
        may_be_accepted(name),
{
    let shown = header_name(name);
    lemma_header_name_begins(name);
    reveal_strlit("..");
    if shown.contains('\0') {
        let i = choose|i: int| 0 <= i < shown.len() && shown[i] == '\0';
        assert(name[i] == '\0');
    }
    assert forall|at: int| #[trigger] component_at(shown, ".."@, at) implies stays(
        shown.skip(at + 2),
    ) by {
        if at + 2 < shown.len() {
            assert(name.subrange(at, at + 2) =~= shown.subrange(at, at + 2));
            assert(component_at(name, ".."@, at));
        }
    }
}

/// The archive that the `tar` crate makes of one file: its portable name, its
/// permission bits and its contents.
pub uninterp spec fn tar_archive(name: Seq<char>, mode: u32, contents: Seq<u8>) -> Seq<u8>;

/// The `tar` crate's complaint about a portable name that it does not accept.
pub uninterp spec fn tar_refusal(name: Seq<char>) -> Seq<char>;

/// What the `tar` crate finds at a position among the entries of an archive: the
/// complaint when it cannot read the entry there, else whether the entry is a
/// regular file; nothing behind the last entry, and nothing behind one that it
/// could not read.
pub uninterp spec fn tar_entry_kind(archive: Seq<u8>, index: nat) -> Option<
    Result<bool, Seq<char>>,
>;

/// The contents that the `tar` crate reads from the entry at a position, or its
/// complaint.
pub uninterp spec fn tar_entry_contents(archive: Seq<u8>, index: nat) -> Result<
    Seq<u8>,
    Seq<char>,
>;

/// Where making an archive went wrong, with the `tar` crate's own words.
#[derive(Debug)]
pub enum TarFailure {
    Append(String),
    Finish(String),
}

// Archives that must not be read
// ------------------------------
//
// The `tar` crate counts the blocks that extend the header of a sparse entry into
// the position of the next entry, and that sum must not overflow. What a container
// produced may hold anything, so the headers up to the first regular file are
// looked at one by one beforehand.

/// What a header block says by itself.
#[derive(Debug, Clone, Copy)]
pub struct RawHeader {
    /// The sum that the block's bytes should have; nothing if it is no number.
    pub checksum: Option<u32>,
    /// The entry's type, `0` for a regular file.
    pub flag: u8,
    /// The header is in GNU's format.
    pub gnu: bool,
    /// The header is in the UStar format.
    pub ustar: bool,
    /// The header is a GNU one that goes on in the next block.
    pub extended: bool,
    /// Size of the entry's data in the archive; nothing if it is no number.
    pub size: Option<u64>,
}

/// What the `tar` crate reads from a header block.
pub uninterp spec fn tar_header(block: Seq<u8>) -> RawHeader;

/// The keys and values that the `tar` crate finds in the data of a pax header, in
/// order; nothing for a malformed record.
pub uninterp spec fn pax_records(data: Seq<u8>) -> Seq<Option<(Seq<u8>, Seq<u8>)>>;

/// `tar::Header::from_byte_slice`: the fields of the header, by `cksum`,
/// `entry_type`, `as_gnu`, `as_ustar` and `entry_size`.
///
/// Claimed: the answer is `tar_header`. A slice of another length than that of a
/// block is left out, since the crate panics on it.
#[verifier::external_body]
fn read_tar_header(block: &[u8]) -> (header: RawHeader)
    requires
        block@.len() == BLOCK_BYTES,
    ensures
        header == tar_header(block@),
{
    let header = tar::Header::from_byte_slice(block);
    RawHeader {
        checksum: header.cksum().ok(),
        flag: header.entry_type().as_byte(),
        gnu: header.as_gnu().is_some(),
        ustar: header.as_ustar().is_some(),
        extended: header.as_gnu().is_some_and(|gnu| gnu.is_extended()),
        size: header.entry_size().ok(),
    }
}

/// Records with their keys and values as byte sequences.
pub open spec fn records_view(records: Seq<Option<(Vec<u8>, Vec<u8>)>>) -> Seq<
    Option<(Seq<u8>, Seq<u8>)>,
> {
    records.map_values(
        |record: Option<(Vec<u8>, Vec<u8>)>|
            match record {
                Some((key, value)) => Some((key@, value@)),
                None => None,
            },
    )
}

/// `tar::PaxExtensions`: its items, by `tar::PaxExtension::key_bytes` and
/// `value_bytes`.
///
/// Claimed: the answer is `pax_records`.
#[verifier::external_body]
fn read_pax_records(data: &[u8]) -> (records: Vec<Option<(Vec<u8>, Vec<u8>)>>)
    ensures
        records_view(records@) == pax_records(data@),
{
    tar::PaxExtensions::new(data)
        .map(|item| item.ok().map(|r| (r.key_bytes().to_vec(), r.value_bytes().to_vec())))
        .collect()
}

/// All of these bytes are decimal digits.
pub open spec fn all_digits(digits: Seq<u8>) -> bool {
    forall|i: int| 0 <= i < digits.len() ==> 48 <= #[trigger] digits[i] <= 57
}

/// The number that decimal digits stand for.
pub open spec fn digits_value(digits: Seq<u8>) -> int
    decreases digits.len(),
{
    if digits.len() == 0 {
        0
    } else {
        10 * digits_value(digits.drop_last()) + (digits.last() - 48)
    }
}

/// The digits of a number: what stands behind its plus sign, if it has one.
pub open spec fn digits_of(value: Seq<u8>) -> Seq<u8> {
    if value.len() > 0 && value[0] == 43 {
        value.skip(1)
    } else {
        value
    }
}

/// The number in a record: decimal digits, at least one, and not too large.
pub open spec fn number_in(value: Seq<u8>) -> Option<u64> {
    let digits = digits_of(value);
    if digits.len() > 0 && all_digits(digits) && digits_value(digits) <= u64::MAX {
        Some(digits_value(digits) as u64)
    } else {
        None
    }
}

/// The key `size`.
pub open spec fn size_key() -> Seq<u8> {
    seq![115u8, 105u8, 122u8, 101u8]
}

/// The size that the records of a pax header give the entry behind it: that of the
/// first record with that key, unless a malformed one comes before it.
pub open spec fn recorded_size(records: Seq<Option<(Seq<u8>, Seq<u8>)>>) -> Option<u64>
    decreases records.len(),
{
    if records.len() == 0 {
        None
    } else {
        match records[0] {
            None => None,
            Some((key, value)) => if key == size_key() {
                number_in(value)
            } else {
                recorded_size(records.drop_first())
            },
        }
    }
}

/// The sum of these bytes.
pub open spec fn byte_sum(bytes: Seq<u8>) -> nat
    decreases bytes.len(),
{
    if bytes.len() == 0 {
        0
    } else {
        byte_sum(bytes.drop_last()) + bytes.last() as nat
    }
}

/// The checksum of a header block: the sum of its bytes, with the checksum's own
/// eight counted as spaces.
pub open spec fn block_checksum(block: Seq<u8>) -> nat {
    byte_sum(block.subrange(0, 148)) + byte_sum(block.subrange(156, 512)) + 256
}

/// The block is a header as it was written.
pub open spec fn is_sound_header(block: Seq<u8>) -> bool {
    let header = tar_header(block);
    header.checksum matches Some(sum) && sum == block_checksum(block) && header.size is Some
}

/// The header stands before another one and describes its entry: a long name, a
/// long link name or pax records.
pub open spec fn describes_next(header: RawHeader) -> bool {
    (header.gnu || header.ustar) && (header.flag == 0x4c || header.flag == 0x4b || header.flag
        == 0x78)
}

/// Size of the data behind a header, given the size that pax records gave. Headers
/// that describe others keep their own.
pub open spec fn stored_size(header: RawHeader, record: Option<u64>) -> u64 {
    if record is Some && header.flag != 0x4c && header.flag != 0x4b && header.flag != 0x78
        && header.flag != 0x67 {
        record->0
    } else {
        header.size->0
    }
}

/// The header is that of a sparse entry, and goes on in the next block.
pub open spec fn is_extended_sparse(header: RawHeader) -> bool {
    header.flag == 0x53 && header.gnu && header.extended
}

/// Where the next header stands: behind the header at `at` and its data, which fill
/// whole blocks.
pub open spec fn behind(at: nat, size: u64) -> nat {
    (at + BLOCK_BYTES + (size + 511) / 512 * 512) as nat
}

/// How many blocks from `at` on extend the header of a sparse entry, as far as the
/// archive goes.
pub open spec fn extension_blocks(archive: Seq<u8>, at: nat) -> nat
    decreases archive.len() - at,
{
    if at + BLOCK_BYTES > archive.len() {
        0
    } else if archive[at as int + 504] != 1 {
        1
    } else {
        1 + extension_blocks(archive, at + BLOCK_BYTES as nat)
    }
}

/// Where the header behind the one at `at` stands, with the blocks that extend it.
pub open spec fn next_header(
    archive: Seq<u8>,
    at: nat,
    header: RawHeader,
    record: Option<u64>,
) -> nat {
    let next = behind(at, stored_size(header, record));
    if is_extended_sparse(header) {
        next + BLOCK_BYTES as nat * extension_blocks(archive, at + BLOCK_BYTES as nat)
    } else {
        next
    }
}

/// The size that the header at `at` gives the entry behind it, if any: a long name
/// passes on what came before, and other entries use it up.
pub open spec fn next_record(
    archive: Seq<u8>,
    at: nat,
    header: RawHeader,
    record: Option<u64>,
) -> Option<u64> {
    if !describes_next(header) {
        None
    } else if header.flag == 0x78 {
        let data = at + BLOCK_BYTES;
        recorded_size(pax_records(archive.subrange(data, data + header.size->0)))
    } else {
        record
    }
}

/// Among the headers from `at` on, up to that of the first regular file, is one of
/// an extended sparse entry that is so long that counting the blocks behind it
/// overflows. `record` is the size that pax records gave the entry at `at`.
pub open spec fn reaches_overlong(archive: Seq<u8>, at: nat, record: Option<u64>) -> bool
    decreases archive.len() - at,
{
    if at + BLOCK_BYTES > archive.len() {
        false
    } else {
        let block = archive.subrange(at as int, at + BLOCK_BYTES);
        let header = tar_header(block);
        let next = next_header(archive, at, header, record);
        if !is_sound_header(block) || header.flag == 0x30 {
            false
        } else if next <= archive.len() {
            reaches_overlong(archive, next, next_record(archive, at, header, record))
        } else {
            is_extended_sparse(header) && behind(at, stored_size(header, record)) <= u64::MAX
                < next
        }
    }
}

/// The archive can be read up to its first regular file without a sum that
/// overflows. One that cannot be holds an entry that is longer than the archive, so
/// there is no file to be had from it.
pub open spec fn is_readable(archive: Seq<u8>) -> bool {
    !reaches_overlong(archive, 0, None)
}

proof fn lemma_digits_grow(digits: Seq<u8>, i: int)
    requires
        0 <= i <= digits.len(),
        all_digits(digits),
    ensures
        0 <= digits_value(digits.take(i)) <= digits_value(digits),
    decreases digits.len(),
{
    if digits.len() > 0 {
        assert(all_digits(digits.drop_last()));
        if i < digits.len() {
            lemma_digits_grow(digits.drop_last(), i);
            assert(digits.drop_last().take(i) =~= digits.take(i));
        } else {
            lemma_digits_grow(digits.drop_last(), digits.len() - 1);
            assert(digits.take(i) =~= digits);
            assert(digits.drop_last().take(digits.len() - 1) =~= digits.drop_last());
        }
    }
}

fn parse_number(value: &Vec<u8>) -> (r: Option<u64>)
    ensures
        r == number_in(value@),
{
    let start: usize = if value.len() > 0 && value[0] == 43 {
        1
    } else {
        0
    };
    let ghost digits = digits_of(value@);
    assert(digits =~= value@.skip(start as int));
    if start == value.len() {
        return None;
    }
    let mut number: u64 = 0;
    let mut i: usize = start;
    assert(digits.take(0) =~= Seq::<u8>::empty());
    while i < value.len()
        invariant
            start <= i <= value@.len(),
            digits == digits_of(value@),
            digits == value@.skip(start as int),
            number == digits_value(digits.take(i - start)),
            all_digits(digits.take(i - start)),
        decreases value@.len() - i,
    {
        let byte = value[i];
        assert(digits[i - start] == byte);
        if byte < 48 || byte > 57 {
            return None;
        }
        let digit: u64 = (byte - 48) as u64;
        proof {
            let longer = digits.take(i - start + 1);
            assert(longer.drop_last() =~= digits.take(i - start));
            if all_digits(digits) {
                lemma_digits_grow(digits, i - start + 1);
            }
            assert(digits_value(longer) == 10 * number + digit);
            assert forall|j: int| 0 <= j < longer.len() implies 48 <= #[trigger] longer[j]
                <= 57 by {
                if j < i - start {
                    assert(longer[j] == digits.take(i - start)[j]);
                }
            }
        }
        if number > (u64::MAX - digit) / 10 {
            return None;
        }
        number = 10 * number + digit;
        i += 1;
    }
    assert(digits.take(i - start) =~= digits);
    Some(number)
}

fn is_size_key(key: &Vec<u8>) -> (r: bool)
    ensures
        r == (key@ == size_key()),
{
    let r = key.len() == 4 && key[0] == 115 && key[1] == 105 && key[2] == 122 && key[3] == 101;
    proof {
        if r {
            assert(key@ =~= size_key());
        }
    }
    r
}

/// The size that pax records give the entry behind them.
fn find_size(data: &[u8]) -> (r: Option<u64>)
    ensures
        r == recorded_size(pax_records(data@)),
{
    let records = read_pax_records(data);
    let ghost all = records_view(records@);
    let mut i: usize = 0;
    assert(all.skip(0) =~= all);
    while i < records.len()
        invariant
            i <= records@.len(),
            all == records_view(records@),
            all == pax_records(data@),
            recorded_size(all.skip(i as int)) == recorded_size(all),
        decreases records@.len() - i,
    {
        assert(all.skip(i as int)[0] == all[i as int]);
        assert(all.skip(i as int).drop_first() =~= all.skip(i + 1));
        match &records[i] {
            None => {
                return None;
            },
            Some((key, value)) => {
                if is_size_key(key) {
                    return parse_number(value);
                }
            },
        }
        i += 1;
    }
    None
}

/// The sum of the bytes from `start` to `end`.
fn sum_bytes(block: &[u8], start: usize, end: usize) -> (sum: u32)
    requires
        start <= end <= block@.len() == BLOCK_BYTES,
    ensures
        sum == byte_sum(block@.subrange(start as int, end as int)),
        sum <= 255 * (end - start),
{
    let mut sum: u32 = 0;
    let mut i: usize = start;
    assert(block@.subrange(start as int, start as int) =~= Seq::<u8>::empty());
    while i < end
        invariant
            start <= i <= end <= block@.len() == BLOCK_BYTES,
            sum == byte_sum(block@.subrange(start as int, i as int)),
            sum <= 255 * (i - start),
        decreases end - i,
    {
        assert(block@.subrange(start as int, i + 1).drop_last() =~= block@.subrange(
            start as int,
            i as int,
        ));
        sum += block[i] as u32;
        i += 1;
    }
    sum
}

/// How many blocks from `start` on extend the header of a sparse entry.
fn count_extension_blocks(archive: &[u8], start: usize) -> (count: usize)
    requires
        start <= archive@.len(),
    ensures
        count == extension_blocks(archive@, start as nat),
        start + BLOCK_BYTES * count <= archive@.len(),
{
    let length: usize = archive.len();
    let mut at: usize = start;
    let mut count: usize = 0;
    while length - at >= BLOCK_BYTES
        invariant
            at <= length == archive@.len(),
            at == start + BLOCK_BYTES * count,
            extension_blocks(archive@, start as nat) == count + extension_blocks(
                archive@,
                at as nat,
            ),
        decreases length - at,
    {
        count += 1;
        if archive[at + 504] != 1 {
            return count;
        }
        at += BLOCK_BYTES;
    }
    count
}

/// Whether reading the archive up to its first regular file overflows a sum.
fn finds_overlong(archive: &[u8]) -> (r: bool)
    ensures
        r == !is_readable(archive@),
{
    let length: usize = archive.len();
    let mut at: usize = 0;
    let mut record: Option<u64> = None;
    while length - at >= BLOCK_BYTES
        invariant
            at <= length == archive@.len(),
            reaches_overlong(archive@, at as nat, record) == reaches_overlong(archive@, 0, None),
        decreases length - at,
    {
        let data: usize = at + BLOCK_BYTES;
        let block = slice_subrange(archive, at, data);
        let header = read_tar_header(block);
        let sum: u32 = sum_bytes(block, 0, 148) + sum_bytes(block, 156, 512) + 256;
        let own: u64 = match (header.checksum, header.size) {
            (Some(checksum), Some(size)) => {
                if checksum != sum {
                    return false;
                }
                size
            },
            _ => {
                return false;
            },
        };
        if header.flag == 0x30 {
            return false;
        }
        let size: u64 = match record {
            Some(given) => if header.flag == 0x4c || header.flag == 0x4b || header.flag == 0x78
                || header.flag == 0x67 {
                own
            } else {
                given
            },
            None => own,
        };
        let end: u128 = data as u128 + (size as u128 + 511) / 512 * 512;
        assert(end == behind(at as nat, stored_size(header, record)));
        let sparse = header.flag == 0x53 && header.gnu && header.extended;
        let next: u128 = if sparse {
            let count: usize = count_extension_blocks(archive, data);
            end + (BLOCK_BYTES * count) as u128
        } else {
            end
        };
        assert(next == next_header(archive@, at as nat, header, record));
        if next > length as u128 {
            return sparse && end <= u64::MAX as u128 && next > u64::MAX as u128;
        }
        let describes = (header.gnu || header.ustar) && (header.flag == 0x4c || header.flag == 0x4b
            || header.flag == 0x78);
        if !describes {
            record = None;
        } else if header.flag == 0x78 {
            record = find_size(slice_subrange(archive, data, data + own as usize));
        }
        at = next as usize;
    }
    false
}

/// `tar::Builder::append_data` on a fresh GNU header, then
/// `tar::Builder::into_inner`: an archive of one file.
///
/// Claimed: an archive that comes out can be read, and holds that file as its first
/// entry; for a portable name it is the same for the same arguments. Such a name
/// gives one just when it is an accepted one, and a refused name never does. What
/// goes wrong is the name: memory takes what is written to it. The complaint about
/// a portable name is `tar_refusal`. Left unsaid is which of the names that are not
/// portable are accepted, and the complaint about them: what they mean depends on
/// the platform.
#[verifier::external_body]
fn write_tar(name: &str, mode: u32, size: u64, contents: &[u8]) -> (r: Result<Vec<u8>, TarFailure>)
    requires
        size == contents@.len(),
    ensures
        is_portable(name@) ==> (r is Ok <==> is_accepted_name(name@)),
        is_refused_name(name@) ==> r is Err,
        r matches Err(failure) ==> (failure matches TarFailure::Append(complaint) && (is_portable(
            name@,
        ) ==> complaint@ == tar_refusal(name@))),
        r matches Ok(archive) ==> {
            &&& is_portable(name@) ==> archive@ == tar_archive(name@, mode, contents@)
            &&& is_readable(archive@)
            &&& tar_entry_kind(archive@, 0) == Some(Ok::<bool, Seq<char>>(true))
            &&& tar_entry_contents(archive@, 0) == Ok::<Seq<u8>, Seq<char>>(contents@)
            &&& archive@.len() > 0
        },
{
    let mut header = tar::Header::new_gnu();
    header.set_size(size);
    header.set_mode(mode);
    header.set_cksum();
    let mut builder = tar::Builder::new(Vec::new());
    match builder.append_data(&mut header, name, contents) {
        Ok(()) => builder.into_inner().map_err(|e| TarFailure::Finish(e.to_string())),
        Err(e) => Err(TarFailure::Append(e.to_string())),
    }
}

/// The result of reading with its texts as character sequences.
pub open spec fn kind_view(kind: Option<Result<bool, String>>) -> Option<Result<bool, Seq<char>>> {
    match kind {
        None => None,
        Some(Ok(is_file)) => Some(Ok(is_file)),
        Some(Err(e)) => Some(Err(e@)),
    }
}

/// A result with its text as a character sequence.
pub open spec fn bytes_view(r: Result<Vec<u8>, String>) -> Result<Seq<u8>, Seq<char>> {
    match r {
        Ok(bytes) => Ok(bytes@),
        Err(e) => Err(e@),
    }
}

/// The entries before `index` can be read, and none of them is a regular file.
pub open spec fn no_file_before(archive: Seq<u8>, index: nat) -> bool {
    forall|i: nat|
        i < index ==> #[trigger] tar_entry_kind(archive, i) == Some(Ok::<bool, Seq<char>>(false))
}

/// `tar::Archive::entries`, the entry at `index` of `tar::Entries`, and
/// `tar::EntryType::is_file`.
///
/// Claimed: the answer is `tar_entry_kind`, and there are no more entries than
/// bytes, since each takes a header block. An archive that is not readable is left
/// out, and so is what stands behind the first regular file: there the crate's sum
/// for a sparse entry can overflow.
#[verifier::external_body]
fn read_tar_kind(archive: &[u8], index: usize) -> (kind: Option<Result<bool, String>>)
    requires
        is_readable(archive@),
        no_file_before(archive@, index as nat),
    ensures
        kind_view(kind) == tar_entry_kind(archive@, index as nat),
        kind is Some ==> index < archive@.len(),
{
    let mut reader = tar::Archive::new(archive);
    let mut entries = match reader.entries() {
        Ok(entries) => entries,
        Err(e) => return Some(Err(e.to_string())),
    };
    match entries.nth(index) {
        Some(Ok(entry)) => Some(Ok(entry.header().entry_type().is_file())),
        Some(Err(e)) => Some(Err(e.to_string())),
        None => None,
    }
}

/// `tar::Archive::entries`, the entry at `index` of `tar::Entries`, and reading
/// that `tar::Entry` to its end.
///
/// Claimed: for a regular file the answer is `tar_entry_contents`.
#[verifier::external_body]
fn read_tar_contents(archive: &[u8], index: usize) -> (contents: Result<Vec<u8>, String>)
    requires
        is_readable(archive@),
        no_file_before(archive@, index as nat),
        tar_entry_kind(archive@, index as nat) == Some(Ok::<bool, Seq<char>>(true)),
    ensures
        bytes_view(contents) == tar_entry_contents(archive@, index as nat),
{
    let mut reader = tar::Archive::new(archive);
    let mut entries = reader.entries().map_err(|e| e.to_string())?;
    let mut bytes = Vec::new();
    match entries.nth(index) {
        Some(Ok(mut entry)) => entry.read_to_end(&mut bytes).map_err(|e| e.to_string())?,
        Some(Err(e)) => return Err(e.to_string()),
        None => return Err(String::new()),
    };
    Ok(bytes)
}

/// The message for an archive that must not be read: reading on would end in the
/// overflow, if not in another complaint before it, and never in a file.
pub open spec fn unreadable_message() -> Seq<char> {
    "could not read the output archive: a sparse entry is longer than any archive"@
}

/// The contents of the first regular file among the entries from `from` on, or
/// the message for there being none that can be read.
pub open spec fn first_file_from(archive: Seq<u8>, from: nat) -> Result<Seq<u8>, Seq<char>>
    decreases archive.len() - from,
{
    if from >= archive.len() {
        Err("the container produced no file"@)
    } else {
        match tar_entry_kind(archive, from) {
            None => Err("the container produced no file"@),
            Some(Err(e)) => Err("could not read the output archive: "@ + e),
            Some(Ok(false)) => first_file_from(archive, from + 1),
            Some(Ok(true)) => match tar_entry_contents(archive, from) {
                Ok(contents) => Ok(contents),
                Err(e) => Err("could not read the rendered file: "@ + e),
            },
        }
    }
}

/// The contents of the first regular file in an archive, or the message for there
/// being none that can be read.
pub open spec fn first_file(archive: Seq<u8>) -> Result<Seq<u8>, Seq<char>> {
    if is_readable(archive) {
        first_file_from(archive, 0)
    } else {
        Err(unreadable_message())
    }
}

/// The archive holds this file: under its name, and so that reading it back gives
/// exactly its contents.
pub open spec fn packs(archive: Seq<u8>, name: Seq<char>, contents: Seq<u8>) -> bool {
    &&& is_portable(name) ==> archive == tar_archive(name, FILE_MODE, contents)
    &&& tar_entry_kind(archive, 0) == Some(Ok::<bool, Seq<char>>(true))
    &&& tar_entry_contents(archive, 0) == Ok::<Seq<u8>, Seq<char>>(contents)
    &&& first_file(archive) == Ok::<Seq<u8>, Seq<char>>(contents)
}

/// The message refuses to pack a file under this name.
pub open spec fn refuses_name(message: Seq<char>, name: Seq<char>) -> bool {
    &&& text::begins_with(message, "could not build the input archive: "@)
    &&& is_portable(name) ==> message == "could not build the input archive: "@ + tar_refusal(name)
}

/// Packs one file into a tar archive.
///
/// A relative path always succeeds, however long it is. Whatever archive comes
/// out, reading it back with [`extract_single_file`] gives exactly `contents`.
pub fn build_tar(file_name: &str, contents: &[u8]) -> (r: Result<Vec<u8>, String>)
    ensures
        is_portable(file_name@) ==> (r is Ok <==> is_accepted_name(file_name@)),
        is_relative_path(file_name@) ==> r is Ok,
        is_refused_name(file_name@) ==> r is Err,
        r matches Ok(archive) ==> packs(archive@, file_name@, contents@),
        r matches Ok(archive) ==> first_file(archive@) == Ok::<Seq<u8>, Seq<char>>(contents@),
        r matches Err(e) ==> refuses_name(e@, file_name@),
{
    proof {
        if is_relative_path(file_name@) {
            law_a_relative_path_is_accepted(file_name@);
        }
    }
    match write_tar(file_name, FILE_MODE, contents.len() as u64, contents) {
        Ok(archive) => Ok(archive),
        Err(TarFailure::Append(e)) => {
            let message = text::join2("could not build the input archive: ", &e);
            proof {
                lemma_begins_with("could not build the input archive: "@, e@);
            }
            Err(message)
        },
        Err(TarFailure::Finish(e)) => Err(text::join2("could not finish the input archive: ", &e)),
    }
}

/// A text begins with what it was put together from first.
proof fn lemma_begins_with(a: Seq<char>, b: Seq<char>)
    ensures
        text::begins_with(a + b, a),
{
    assert((a + b).subrange(0, a.len() as int) =~= a);
}

/// The contents of the first regular file in a tar archive. An archive without
/// one is an error, not an empty file, and so is one that must not be read.
pub fn extract_single_file(archive: &[u8]) -> (r: Result<Vec<u8>, String>)
    ensures
        bytes_view(r) == first_file(archive@),
{
    if finds_overlong(archive) {
        return Err(
            "could not read the output archive: a sparse entry is longer than any archive".to_owned(),
        );
    }
    let length: usize = archive.len();
    let mut index: usize = 0;
    loop
        invariant
            index <= archive@.len() == length,
            is_readable(archive@),
            no_file_before(archive@, index as nat),
            first_file_from(archive@, index as nat) == first_file_from(archive@, 0),
        decreases archive@.len() - index,
    {
        match read_tar_kind(archive, index) {
            None => {
                return Err("the container produced no file".to_owned());
            },
            Some(Err(e)) => {
                return Err(text::join2("could not read the output archive: ", &e));
            },
            Some(Ok(true)) => {
                return match read_tar_contents(archive, index) {
                    Ok(contents) => Ok(contents),
                    Err(e) => Err(text::join2("could not read the rendered file: ", &e)),
                };
            },
            Some(Ok(false)) => {
                index += 1;
            },
        }
    }
}

// ---------------------------------------------------------------------------
// Copying files into and out of a container
// ---------------------------------------------------------------------------

/// A command line and the bytes to write to its standard input.
#[derive(Debug)]
pub struct Feed {
    pub command: CommandLine,
    pub stdin: Vec<u8>,
}

/// How far running a command with bytes on its standard input got. The texts are
/// the system's words for what went wrong.
#[derive(Debug)]
pub enum FeedEnd {
    NotStarted(String),
    NoStdin,
    WriteFailed(String),
    CloseFailed(String),
    WaitFailed(String),
    Ended(ProcessOutput),
}

/// The message of a failure, nothing for success.
pub open spec fn failure(r: Result<(), String>) -> Option<Seq<char>> {
    match r {
        Ok(_) => None,
        Err(e) => Some(e@),
    }
}

/// Podman's `what` subcommand, as messages name it.
pub open spec fn quoted_cli(what: Seq<char>) -> Seq<char> {
    "`"@ + CONTAINER_CLI@ + " "@ + what + "`"@
}

pub fn cli_in_quotes(what: &str) -> (r: String)
    ensures
        r@ == quoted_cli(what@),
{
    text::join5("`", CONTAINER_CLI, " ", what, "`")
}

/// `container:path`, the form in which `podman cp` takes a place in a container.
pub open spec fn container_path(container: Seq<char>, path: Seq<char>) -> Seq<char> {
    container + ":"@ + path
}

/// Copies one file into a container, as a tar stream: the command to run and
/// what to feed it.
///
/// `podman cp -` takes a tar archive on its standard input, so the file is
/// handed over as bytes and no host path is named.
pub fn copy_file_into(
    engine: &Engine,
    container: &str,
    dest_dir: &str,
    file_name: &str,
    contents: &[u8],
) -> (r: Result<Feed, String>)
    ensures
        is_portable(file_name@) ==> (r is Ok <==> is_accepted_name(file_name@)),
        is_relative_path(file_name@) ==> r is Ok,
        is_refused_name(file_name@) ==> r is Err,
        r matches Ok(feed) ==> {
            &&& feed.command@ == podman(
                engine.distro_name(),
                seq!["cp"@, "-"@, container_path(container@, dest_dir@)],
            )
            &&& packs(feed.stdin@, file_name@, contents@)
        },
        r matches Err(e) ==> refuses_name(e@, file_name@),
{
    match build_tar(file_name, contents) {
        Ok(stdin) => {
            let place = text::join3(container, ":", dest_dir);
            let command = engine.cmd_with(text::list3("cp", "-", &place));
            Ok(Feed { command, stdin })
        },
        Err(e) => Err(e),
    }
}

/// What went wrong with a copy into a container, if anything did.
pub open spec fn copy_in_failure(end: FeedEnd) -> Option<Seq<char>> {
    match end {
        FeedEnd::NotStarted(e) => Some("could not start "@ + quoted_cli("cp"@) + ": "@ + e@),
        FeedEnd::NoStdin => Some(quoted_cli("cp"@) + " gave us no stdin"@),
        FeedEnd::WriteFailed(e) => Some("could not write the input archive: "@ + e@),
        FeedEnd::CloseFailed(e) => Some("could not finish the input archive: "@ + e@),
        FeedEnd::WaitFailed(e) => Some(quoted_cli("cp"@) + " failed: "@ + e@),
        FeedEnd::Ended(output) => if output.success {
            None
        } else {
            Some(quoted_cli("cp"@) + " failed: "@ + complaint(output.stderr@))
        },
    }
}

/// Reads what came of the copy that [`copy_file_into`] planned.
pub fn copied_into(end: FeedEnd) -> (r: Result<(), String>)
    ensures
        failure(r) == copy_in_failure(end),
{
    let cli = cli_in_quotes("cp");
    match end {
        FeedEnd::NotStarted(e) => Err(text::join4("could not start ", &cli, ": ", &e)),
        FeedEnd::NoStdin => Err(text::join2(&cli, " gave us no stdin")),
        FeedEnd::WriteFailed(e) => Err(text::join2("could not write the input archive: ", &e)),
        FeedEnd::CloseFailed(e) => Err(text::join2("could not finish the input archive: ", &e)),
        FeedEnd::WaitFailed(e) => Err(text::join3(&cli, " failed: ", &e)),
        FeedEnd::Ended(output) => if output.success {
            Ok(())
        } else {
            Err(text::join3(&cli, " failed: ", &complaint_of(&output.stderr)))
        },
    }
}

/// Copies one file out of a container: the command whose output is a tar stream
/// of it.
pub fn copy_file_out(engine: &Engine, container: &str, path_in_container: &str) -> (command:
    CommandLine)
    ensures
        command@ == podman(
            engine.distro_name(),
            seq!["cp"@, container_path(container@, path_in_container@), "-"@],
        ),
{
    let place = text::join3(container, ":", path_in_container);
    engine.cmd_with(text::list3("cp", &place, "-"))
}

/// The file that a copy out of a container gave, or the message for why it gave
/// none.
pub open spec fn copy_out_result(path: Seq<char>, end: Result<ProcessOutput, String>) -> Result<
    Seq<u8>,
    Seq<char>,
> {
    match end {
        Err(e) => Err("could not read from the container: "@ + e@),
        Ok(output) => if output.success {
            first_file(output.stdout@)
        } else {
            Err("could not read "@ + path + ": "@ + complaint(output.stderr@))
        },
    }
}

/// Reads what came of the copy that [`copy_file_out`] planned.
pub fn copied_out(path_in_container: &str, end: Result<ProcessOutput, String>) -> (r: Result<
    Vec<u8>,
    String,
>)
    ensures
        bytes_view(r) == copy_out_result(path_in_container@, end),
{
    match end {
        Err(e) => Err(text::join2("could not read from the container: ", &e)),
        Ok(output) => if output.success {
            extract_single_file(output.stdout.as_slice())
        } else {
            Err(
                text::join4(
                    "could not read ",
                    path_in_container,
                    ": ",
                    &complaint_of(&output.stderr),
                ),
            )
        },
    }
}

// ---------------------------------------------------------------------------
// Laws
// ---------------------------------------------------------------------------

/// Whatever program is run, with whatever arguments, it runs inside the distro:
/// what starts on the host is `wsl -d <distro> --`.
pub proof fn law_commands_run_inside_the_distro(
    distro: Seq<char>,
    program: Seq<char>,
    args: Seq<Seq<char>>,
)
    ensures
        runs_inside(inside(distro, program, args), distro),
        runs_inside(podman(distro, args), distro),
{
}

/// What is started is `wsl -d <distro> --`, then the program, then exactly the
/// arguments that it was given, in order. For Podman the program is `podman`.
pub proof fn law_a_command_carries_its_arguments(
    distro: Seq<char>,
    program: Seq<char>,
    args: Seq<Seq<char>>,
)
    ensures
        ({
            let command = inside(distro, program, args);
            &&& command.program == "wsl"@
            &&& command.args.len() == 4 + args.len()
            &&& command.args[0] == "-d"@
            &&& command.args[1] == distro
            &&& command.args[2] == "--"@
            &&& command.args[3] == program
            &&& command.args.skip(4) == args
        }),
        podman(distro, args) == inside(distro, "podman"@, args),
{
    assert(inside(distro, program, args).args.skip(4) =~= args);
}

/// A place in a container is its name, a colon and the path, and words about the
/// engine hold the distro's name.
pub proof fn law_a_place_is_a_container_and_a_path(
    container: Seq<char>,
    path: Seq<char>,
    distro: Seq<char>,
)
    ensures
        text::begins_with(container_path(container, path), container),
        text::ends_in(container_path(container, path), path),
        container_path(container, path)[container.len() as int] == ':',
        container_path(container, path).len() == container.len() + 1 + path.len(),
        text::occurs_in(engine_description(distro), "'"@ + distro + "'"@),
{
    reveal_strlit(":");
    assert(container + ":"@ + path =~= container + (":"@ + path));
    text::law_parts_are_found(Seq::empty(), container, ":"@ + path);
    text::law_parts_are_found(container + ":"@, path, Seq::empty());
    reveal_strlit("Podman in the '");
    reveal_strlit("Podman in the ");
    reveal_strlit("' WSL2 distro");
    reveal_strlit("'");
    reveal_strlit(" WSL2 distro");
    text::law_parts_are_found("Podman in the "@, "'"@ + distro + "'"@, " WSL2 distro"@);
    assert("Podman in the "@ + ("'"@ + distro + "'"@) + " WSL2 distro"@ =~= engine_description(
        distro,
    ));
}

/// A packed file is the first entry of its archive, a regular file with exactly its
/// bytes, however many there are, under its name and readable by all.
pub proof fn law_a_packed_file_is_whole(archive: Seq<u8>, name: Seq<char>, contents: Seq<u8>)
    requires
        packs(archive, name, contents),
    ensures
        tar_entry_kind(archive, 0) == Some(Ok::<bool, Seq<char>>(true)),
        tar_entry_contents(archive, 0) == Ok::<Seq<u8>, Seq<char>>(contents),
        is_portable(name) ==> archive == tar_archive(name, 0o644, contents),
{
}

proof fn lemma_first_file_from(archive: Seq<u8>, from: nat, k: nat)
    requires
        from <= k < archive.len(),
        no_file_before(archive, k),
    ensures
        first_file_from(archive, from) == first_file_from(archive, k),
    decreases k - from,
{
    if from < k {
        assert(tar_entry_kind(archive, from) == Some(Ok::<bool, Seq<char>>(false)));
        lemma_first_file_from(archive, from + 1, k);
    }
}

/// What is read from an archive is its first regular file, whole: all the bytes of
/// that entry, whatever stands before it and behind it. Where the entry cannot be
/// read, or there is none, the message says so.
pub proof fn law_the_first_file_is_read_whole(archive: Seq<u8>, k: nat)
    requires
        is_readable(archive),
        k < archive.len(),
        no_file_before(archive, k),
    ensures
        match tar_entry_kind(archive, k) {
            Some(Ok(true)) => match tar_entry_contents(archive, k) {
                Ok(contents) => first_file(archive) == Ok::<Seq<u8>, Seq<char>>(contents),
                Err(e) => first_file(archive) matches Err(message) && text::ends_in(message, e),
            },
            Some(Ok(false)) => true,
            Some(Err(e)) => first_file(archive) matches Err(message) && text::ends_in(message, e),
            None => first_file(archive) == Err::<Seq<u8>, Seq<char>>(
                "the container produced no file"@,
            ),
        },
{
    lemma_first_file_from(archive, 0, k);
    match tar_entry_kind(archive, k) {
        Some(Ok(true)) => match tar_entry_contents(archive, k) {
            Ok(_) => {},
            Err(e) => {
                text::law_parts_are_found("could not read the rendered file: "@, e, Seq::empty());
            },
        },
        Some(Err(e)) => {
            text::law_parts_are_found("could not read the output archive: "@, e, Seq::empty());
        },
        _ => {},
    }
}

/// A successful copy out of a container gives exactly the file that was copied: all
/// the bytes of the first regular file in what the copy printed, of any length. In
/// particular a file that was packed comes out as it went in.
pub proof fn law_a_copy_gives_the_whole_file(
    path: Seq<char>,
    output: ProcessOutput,
    k: nat,
    name: Seq<char>,
    contents: Seq<u8>,
)
    requires
        output.success,
    ensures
        is_readable(output.stdout@) && k < output.stdout@.len() && no_file_before(
            output.stdout@,
            k,
        ) && tar_entry_kind(output.stdout@, k) == Some(Ok::<bool, Seq<char>>(true))
            && tar_entry_contents(output.stdout@, k) == Ok::<Seq<u8>, Seq<char>>(contents)
            ==> copy_out_result(path, Ok(output)) == Ok::<Seq<u8>, Seq<char>>(contents),
        packs(output.stdout@, name, contents) ==> copy_out_result(path, Ok(output)) == Ok::<
            Seq<u8>,
            Seq<char>,
        >(contents),
{
    if is_readable(output.stdout@) && k < output.stdout@.len() && no_file_before(output.stdout@, k) {
        law_the_first_file_is_read_whole(output.stdout@, k);
    }
}

/// A copy that failed gives no file but a message, with the path and what was
/// complained about.
pub proof fn law_a_failed_copy_gives_no_file(path: Seq<char>, output: ProcessOutput, e: String)
    ensures
        copy_out_result(path, Err(e)) matches Err(message) && text::ends_in(message, e@),
        !output.success ==> (copy_out_result(path, Ok(output)) matches Err(message)
            && text::occurs_in(message, path) && text::ends_in(message, complaint(output.stderr@))),
{
    text::law_parts_are_found("could not read from the container: "@, e@, Seq::empty());
    let said = complaint(output.stderr@);
    text::law_parts_are_found("could not read "@, path, ": "@ + said);
    text::law_parts_are_found("could not read "@ + path + ": "@, said, Seq::empty());
    assert("could not read "@ + path + (": "@ + said) =~= "could not read "@ + path + ": "@ + said);
}

/// A copy into a container went well exactly when its command ended with success.
/// Otherwise the message ends in the system's words, or in the command's own.
pub proof fn law_a_copy_in_fails_with_its_command(end: FeedEnd)
    ensures
        copy_in_failure(end) is None <==> (end matches FeedEnd::Ended(output) && output.success),
        match end {
            FeedEnd::NotStarted(e) => text::ends_in(copy_in_failure(end)->0, e@),
            FeedEnd::NoStdin => true,
            FeedEnd::WriteFailed(e) => text::ends_in(copy_in_failure(end)->0, e@),
            FeedEnd::CloseFailed(e) => text::ends_in(copy_in_failure(end)->0, e@),
            FeedEnd::WaitFailed(e) => text::ends_in(copy_in_failure(end)->0, e@),
            FeedEnd::Ended(output) => !output.success ==> text::ends_in(
                copy_in_failure(end)->0,
                complaint(output.stderr@),
            ),
        },
{
    let none = Seq::<char>::empty();
    match end {
        FeedEnd::NotStarted(e) => {
            text::law_parts_are_found("could not start "@ + quoted_cli("cp"@) + ": "@, e@, none);
        },
        FeedEnd::NoStdin => {},
        FeedEnd::WriteFailed(e) => {
            text::law_parts_are_found("could not write the input archive: "@, e@, none);
        },
        FeedEnd::CloseFailed(e) => {
            text::law_parts_are_found("could not finish the input archive: "@, e@, none);
        },
        FeedEnd::WaitFailed(e) => {
            text::law_parts_are_found(quoted_cli("cp"@) + " failed: "@, e@, none);
        },
        FeedEnd::Ended(output) => {
            text::law_parts_are_found(
                quoted_cli("cp"@) + " failed: "@,
                complaint(output.stderr@),
                none,
            );
        },
    }
}

/// Results are modelled as they are.
pub proof fn law_results_stand_for_themselves(e: String, bytes: Vec<u8>)
    ensures
        failure(Ok(())) == None::<Seq<char>>,
        failure(Err(e)) == Some(e@),
        bytes_view(Ok(bytes)) == Ok::<Seq<u8>, Seq<char>>(bytes@),
        bytes_view(Err(e)) == Err::<Seq<u8>, Seq<char>>(e@),
{
}

proof fn lemma_reads_on(archive: Seq<u8>, at: nat, record: Option<u64>)
    requires
        at % 512 == 0,
        forall|b: int|
            0 <= b && 512 * b + 512 <= archive.len() ==> !({
                let header = tar_header(#[trigger] archive.subrange(512 * b, 512 * b + 512));
                header.flag == 0x53 && header.gnu && header.extended
            }),
    ensures
        !reaches_overlong(archive, at, record),
    decreases archive.len() - at,
{
    if at + BLOCK_BYTES <= archive.len() {
        let b = (at / 512) as int;
        let block = archive.subrange(at as int, at + BLOCK_BYTES);
        assert(block == archive.subrange(512 * b, 512 * b + 512));
        let header = tar_header(block);
        let next = next_header(archive, at, header, record);
        assert(next == behind(at, stored_size(header, record)));
        if next <= archive.len() {
            lemma_reads_on(archive, next, next_record(archive, at, header, record));
        }
    }
}

/// An archive is readable unless there is an extended sparse entry in it: whatever
/// it holds, however long it is, in no block of it stands the header of one.
pub proof fn law_archives_without_sparse_entries_are_readable(archive: Seq<u8>)
    requires
        forall|b: int|
            0 <= b && 512 * b + 512 <= archive.len() ==> !({
                let header = tar_header(#[trigger] archive.subrange(512 * b, 512 * b + 512));
                header.flag == 0x53 && header.gnu && header.extended
            }),
    ensures
        is_readable(archive),
{
    lemma_reads_on(archive, 0, None);
}

/// An archive is readable when its first entry is a regular file, whatever comes
/// behind, and also when only the file's long name stands before it.
pub proof fn law_archives_that_begin_with_a_file_are_readable(archive: Seq<u8>, size: u64, at: int)
    requires
        archive.len() >= 512,
        ({
            let first = tar_header(archive.subrange(0, 512));
            ||| first.flag == 0x30
            ||| {
                &&& first.flag == 0x4c
                &&& first.gnu
                &&& first.size == Some(size)
                &&& at == 512 + (size + 511) / 512 * 512
                &&& at + 512 <= archive.len()
                &&& tar_header(archive.subrange(at, at + 512)).flag == 0x30
            }
        }),
    ensures
        is_readable(archive),
{
    let block = archive.subrange(0, 512);
    let first = tar_header(block);
    if first.flag != 0x30 {
        assert(next_header(archive, 0, first, None) == at);
        assert(!reaches_overlong(archive, at as nat, next_record(archive, 0, first, None)));
    }
}

/// An archive is not readable when its first entry is an extended sparse one whose
/// data ends so close to the largest position that the block behind its header goes
/// beyond it.
pub proof fn law_an_overlong_sparse_entry_is_not_readable(archive: Seq<u8>, size: u64)
    requires
        1024 <= archive.len() <= u64::MAX,
        is_sound_header(archive.subrange(0, 512)),
        ({
            let first = tar_header(archive.subrange(0, 512));
            first.flag == 0x53 && first.gnu && first.extended && first.size == Some(size)
        }),
        512 + (size + 511) / 512 * 512 <= u64::MAX < 1024 + (size + 511) / 512 * 512,
    ensures
        !is_readable(archive),
        first_file(archive) is Err,
{
    let first = tar_header(archive.subrange(0, 512));
    assert(extension_blocks(archive, 512) >= 1);
    assert(next_header(archive, 0, first, None) > u64::MAX);
}

/// A name without dots, colons, backslashes and NULs that does not begin with a
/// slash is a relative path, however long it is, and a name that begins with a slash
/// or has a way up in it is none.
pub proof fn law_which_names_are_relative_paths(
    name: Seq<char>,
    before: Seq<char>,
    after: Seq<char>,
)
    requires
        name.len() > 0,
    ensures
        name[0] != '/' && !name.contains('.') && !name.contains(':') && !name.contains('\\')
            && !name.contains('\0') ==> is_relative_path(name),
        name[0] == '/' ==> !is_relative_path(name) && !is_accepted_name(name),
        name.contains('\0') || name.contains('\\') || name.contains(':') ==> !is_relative_path(name),
        !is_relative_path(before + "/../"@ + after),
        !is_relative_path("../"@ + after),
        !is_relative_path(before + "/.."@),
        !is_relative_path(".."@),
{
    reveal_strlit("..");
    reveal_strlit("../");
    reveal_strlit("/..");
    reveal_strlit("/../");
    if has_component(name, ".."@) {
        let at = choose|at: int| component_at(name, ".."@, at);
        assert(name.subrange(at, at + 2)[0] == name[at]);
        assert(name.contains('.'));
    }
    let inner = before + "/../"@ + after;
    let at = before.len() as int + 1;
    assert(inner.subrange(at, at + 2) =~= ".."@);
    assert(component_at(inner, ".."@, at));
    let first = "../"@ + after;
    assert(first.subrange(0, 2) =~= ".."@);
    assert(component_at(first, ".."@, 0));
    let last = before + "/.."@;
    assert(last.subrange(at, at + 2) =~= ".."@);
    assert(component_at(last, ".."@, at));
    assert(".."@.subrange(0, 2) =~= ".."@);
    assert(component_at(".."@, ".."@, 0));
}

/// An engine runs in the distro that it was made for, and the container CLI is quoted
/// with what it was asked to do.
pub proof fn law_an_engine_has_its_own_distro(distro: String, what: Seq<char>)
    ensures
        (Engine::Wsl { distro }).distro_name() == distro@,
        engine_description(distro@).len() == 28 + distro@.len(),
        quoted_cli(what).len() == 9 + what.len(),
        text::begins_with(quoted_cli(what), "`podman "@),
        text::ends_in(quoted_cli(what), what + "`"@),
{
    reveal_strlit("Podman in the '");
    reveal_strlit("' WSL2 distro");
    reveal_strlit("`");
    reveal_strlit("podman");
    reveal_strlit(" ");
    reveal_strlit("`podman ");
    assert("`"@ + "podman"@ + " "@ =~= "`podman "@);
    assert(quoted_cli(what) =~= "`podman "@ + (what + "`"@));
    text::law_parts_are_found(Seq::empty(), "`podman "@, what + "`"@);
    text::law_parts_are_found("`podman "@, what + "`"@, Seq::empty());
}

/// A portable name is either accepted or refused, on every platform, and a refusal
/// ends in the complaint about that very name.
pub proof fn law_a_portable_name_is_accepted_or_refused(name: Seq<char>, message: Seq<char>)
    requires
        is_portable(name),
    ensures
        may_be_accepted(name) <==> !may_be_refused(name),
        name.len() == 0 || name[0] == '/' ==> may_be_refused(name),
        refuses_name(message, name) ==> text::ends_in(message, tar_refusal(name))
            && text::begins_with(message, "could not build the input archive: "@),
{
    text::law_parts_are_found(
        "could not build the input archive: "@,
        tar_refusal(name),
        Seq::empty(),
    );
    if name.len() == 0 {
        assert(name =~= Seq::<char>::empty());
        assert(encode_utf8(name).len() == 0);
    }
}

/// The bytes of ASCII text.
pub open spec fn ascii_bytes(written: Seq<char>) -> Seq<u8> {
    written.map_values(|c: char| c as u8)
}

proof fn lemma_digits_read(written: Seq<char>)
    requires
        forall|i: int| 0 <= i < written.len() ==> 48 <= #[trigger] written[i] as int <= 57,
    ensures
        digits_value(ascii_bytes(written)) == text::number_of(written),
        all_digits(ascii_bytes(written)),
    decreases written.len(),
{
    let bytes = ascii_bytes(written);
    assert forall|i: int| 0 <= i < bytes.len() implies 48 <= #[trigger] bytes[i] <= 57 by {
        assert(48 <= written[i] as int <= 57);
    }
    if written.len() > 0 {
        assert(bytes.drop_last() =~= ascii_bytes(written.drop_last()));
        assert forall|i: int| 0 <= i < written.drop_last().len() implies 48
            <= #[trigger] written.drop_last()[i] as int <= 57 by {
            assert(48 <= written[i] as int <= 57);
        }
        lemma_digits_read(written.drop_last());
        assert(48 <= written[written.len() - 1] as int <= 57);
    }
}

/// A size that was recorded is read again, with or without a plus sign, whatever
/// other records stand before it, unless one of them is malformed.
pub proof fn law_a_recorded_size_is_read(
    n: u64,
    key: Seq<u8>,
    value: Seq<u8>,
    rest: Seq<Option<(Seq<u8>, Seq<u8>)>>,
)
    ensures
        number_in(ascii_bytes(text::decimal(n as nat))) == Some(n),
        number_in(seq![43u8] + ascii_bytes(text::decimal(n as nat))) == Some(n),
        recorded_size(
            seq![Some((ascii_bytes("size"@), ascii_bytes(text::decimal(n as nat))))] + rest,
        ) == Some(n),
        key != ascii_bytes("size"@) ==> recorded_size(seq![Some((key, value))] + rest)
            == recorded_size(rest),
        recorded_size(seq![None::<(Seq<u8>, Seq<u8>)>] + rest) is None,
        recorded_size(Seq::empty()) is None,
{
    let digits = text::decimal(n as nat);
    let bytes = ascii_bytes(digits);
    text::law_decimal_text_is_its_number(n as nat);
    lemma_digits_read(digits);
    assert(48 <= bytes[0] <= 57);
    assert((seq![43u8] + bytes).skip(1) =~= bytes);
    reveal_strlit("size");
    assert(ascii_bytes("size"@) =~= size_key());
    assert((seq![Some((size_key(), bytes))] + rest).drop_first() =~= rest);
    assert((seq![Some((key, value))] + rest).drop_first() =~= rest);
}

proof fn lemma_extension_blocks(archive: Seq<u8>, at: nat, count: nat)
    requires
        count > 0,
        at + 512 * count <= archive.len(),
        forall|b: int| 0 <= b < count - 1 ==> #[trigger] archive[at + 512 * b + 504] == 1,
        archive[at + 512 * (count - 1) + 504] != 1,
    ensures
        extension_blocks(archive, at) == count,
    decreases count,
{
    if count > 1 {
        assert(archive[at + 512 * 0int + 504] == 1);
        assert forall|b: int| 0 <= b < count - 2 implies #[trigger] archive[(at + 512) + 512 * b
            + 504] == 1 by {
            assert(archive[at + 512 * (b + 1) + 504] == 1);
        }
        lemma_extension_blocks(archive, at + 512, (count - 1) as nat);
    }
}

/// An ordinary sparse entry before a file does not make an archive unreadable,
/// however many blocks extend its header.
pub proof fn law_an_ordinary_sparse_entry_is_readable(archive: Seq<u8>, size: u64, count: nat)
    requires
        count > 0,
        ({
            let file = 512 + (size + 511) / 512 * 512 + 512 * count;
            &&& file + 512 <= archive.len()
            &&& tar_header(archive.subrange(file, file + 512)).flag == 0x30
        }),
        tar_header(archive.subrange(0, 512)).size == Some(size),
        forall|b: int| 0 <= b < count - 1 ==> #[trigger] archive[512 + 512 * b + 504] == 1,
        archive[512 + 512 * (count - 1) + 504] != 1,
        ({
            let first = tar_header(archive.subrange(0, 512));
            first.flag == 0x53 && first.gnu && first.extended
        }),
    ensures
        is_readable(archive),
{
    let first = tar_header(archive.subrange(0, 512));
    assert(archive.len() >= 512 + 512 * count);
    lemma_extension_blocks(archive, 512, count);
    let file = next_header(archive, 0, first, None);
    assert(!reaches_overlong(archive, file, next_record(archive, 0, first, None)));
}

} // verus!
