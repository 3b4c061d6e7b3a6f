//! Talking to `wsl.exe` itself: which distro names may be handed to it, and what
//! its own output says.

use crate::command::{CommandLine, CommandView, ProcessOutput};
use crate::text;
use vstd::prelude::*;
use vstd::slice::slice_subrange;
use vstd::utf8::*;

verus! {

/// The longest distro name.
pub const MAX_NAME_LENGTH: usize = 64;

// ---------------------------------------------------------------------------
// Distro names
// ---------------------------------------------------------------------------

/// A character that may stand in a distro name.
pub open spec fn is_name_char(c: char) -> bool {
    text::is_ascii_alphanumeric(c) || c == '-' || c == '_' || c == '.'
}

/// A usable distro name: letters, digits, dots, dashes and underscores, at least
/// one and at most [`MAX_NAME_LENGTH`], the first of them not a dash.
pub open spec fn is_distro_name(name: Seq<char>) -> bool {
    &&& 0 < name.len() <= MAX_NAME_LENGTH
    &&& name[0] != '-'
    &&& forall|i: int| 0 <= i < name.len() ==> is_name_char(#[trigger] name[i])
}

/// Whether a distro name can be handed to `wsl.exe` as an argument.
///
/// It is one element of the argument vector, so a space cannot split it, but a
/// name that begins with a dash would still be read as a flag.
pub fn valid_distro_name(name: &str) -> (r: bool)
    ensures
        r == is_distro_name(name@),
{
    let chars = text::chars_of(name);
    if chars.len() == 0 || chars.len() > MAX_NAME_LENGTH || chars[0] == '-' {
        return false;
    }
    let mut i: usize = 0;
    while i < chars.len()
        invariant
            chars@ == name@,
            i <= chars@.len(),
            forall|j: int| 0 <= j < i ==> is_name_char(#[trigger] chars@[j]),
        decreases chars@.len() - i,
    {
        let c = chars[i];
        if !(text::ascii_alphanumeric(c) || c == '-' || c == '_' || c == '.') {
            assert(!is_name_char(name@[i as int]));
            return false;
        }
        i += 1;
    }
    true
}

// ---------------------------------------------------------------------------
// Decoding
// ---------------------------------------------------------------------------

/// The bytes behind a UTF-16LE byte order mark, or all of them without one.
pub open spec fn without_bom(bytes: Seq<u8>) -> Seq<u8> {
    if bytes.len() >= 2 && bytes[0] == 0xff && bytes[1] == 0xfe {
        bytes.skip(2)
    } else {
        bytes
    }
}

/// How many of the first `pairs` pairs of bytes have zero as their second byte.
pub open spec fn zero_high_bytes(body: Seq<u8>, pairs: nat) -> nat
    decreases pairs,
{
    if pairs == 0 {
        0
    } else {
        zero_high_bytes(body, (pairs - 1) as nat) + (if body[2 * pairs - 1] == 0 {
            1nat
        } else {
            0
        })
    }
}

/// A run of UTF-16LE that is mostly ASCII: whole pairs of bytes, more than half
/// of them with zero as their second byte.
pub open spec fn looks_utf16(body: Seq<u8>) -> bool {
    &&& body.len() >= 2
    &&& body.len() % 2 == 0
    &&& zero_high_bytes(body, body.len() / 2) > body.len() / 4
}

/// One UTF-16 unit, low byte first.
pub open spec fn unit(low: u8, high: u8) -> u16 {
    (low + 256 * high) as u16
}

/// The UTF-16LE units of a run of bytes.
pub open spec fn units(body: Seq<u8>) -> Seq<u16> {
    Seq::new(body.len() / 2, |i: int| unit(body[2 * i], body[2 * i + 1]))
}

/// What `wsl.exe` said: UTF-16LE where it looks like that, else UTF-8.
pub open spec fn decoded(bytes: Seq<u8>) -> Seq<char> {
    let body = without_bom(bytes);
    if looks_utf16(body) {
        text::decode_utf16(units(body))
    } else {
        text::utf8_lossy(body)
    }
}

/// Decodes output of `wsl.exe` itself, which is UTF-16LE on Windows.
///
/// Only its own messages need this: the output of a program that runs in a
/// distro comes back as the bytes that the program wrote.
pub fn decode_wsl_output(bytes: &[u8]) -> (r: String)
    ensures
        r@ == decoded(bytes@),
{
    let marked = bytes.len() >= 2 && bytes[0] == 0xff && bytes[1] == 0xfe;
    let start: usize = if marked {
        2
    } else {
        0
    };
    let body = slice_subrange(bytes, start, bytes.len());
    assert(body@ =~= without_bom(bytes@));

    let mut zeros: usize = 0;
    let mut found: Vec<u16> = Vec::new();
    let length: usize = body.len();
    let pairs: usize = length / 2;
    let mut i: usize = 0;
    while i < pairs
        invariant
            body@.len() == length,
            i <= pairs == length / 2,
            zeros == zero_high_bytes(body@, i as nat),
            zeros <= i,
            found@ == units(body@).take(i as int),
        decreases pairs - i,
    {
        let low = body[2 * i];
        let high = body[2 * i + 1];
        found.push(low as u16 + 256 * (high as u16));
        if high == 0 {
            zeros += 1;
        }
        i += 1;
        assert(found@ =~= units(body@).take(i as int));
    }
    assert(units(body@).take(i as int) =~= units(body@));

    if length >= 2 && length % 2 == 0 && zeros > length / 4 {
        text::from_utf16_lossy(found.as_slice())
    } else {
        text::from_utf8_lossy(body)
    }
}

// ---------------------------------------------------------------------------
// Which distros there are
// ---------------------------------------------------------------------------

/// Asks `wsl.exe` for the names of the distros that it knows.
pub open spec fn list_distros() -> CommandView {
    CommandView { program: "wsl"@, args: seq!["--list"@, "--quiet"@] }
}

pub fn list_distros_command() -> (command: CommandLine)
    ensures
        command@ == list_distros(),
{
    CommandLine { program: "wsl".to_owned(), args: text::list2("--list", "--quiet") }
}

/// The distro names in an answer, or why there are none: `wsl.exe` is missing or
/// broken.
pub open spec fn distros(end: Result<ProcessOutput, String>) -> Result<
    Seq<Seq<char>>,
    Seq<char>,
> {
    match end {
        Err(e) => Err("could not run wsl: "@ + e@ + ". Is WSL installed?"@),
        Ok(output) => if output.success {
            Ok(text::entries_of(decoded(output.stdout@)))
        } else {
            Err("wsl --list failed: "@ + text::trimmed(decoded(output.stderr@)))
        },
    }
}

/// A list of texts, or a message, as character sequences.
pub open spec fn list_view(r: Result<Vec<String>, String>) -> Result<Seq<Seq<char>>, Seq<char>> {
    match r {
        Ok(list) => Ok(text::texts(list@)),
        Err(e) => Err(e@),
    }
}

/// The distros that WSL knows, from what came of [`list_distros_command`]. An
/// error means that WSL itself is missing or broken.
pub fn installed_distros(end: Result<ProcessOutput, String>) -> (r: Result<Vec<String>, String>)
    ensures
        list_view(r) == distros(end),
{
    match end {
        Err(e) => Err(text::join3("could not run wsl: ", &e, ". Is WSL installed?")),
        Ok(output) => if output.success {
            Ok(text::entries(&decode_wsl_output(output.stdout.as_slice())))
        } else {
            let said = decode_wsl_output(output.stderr.as_slice());
            Err(text::join2("wsl --list failed: ", &text::trim(&said)))
        },
    }
}

// ---------------------------------------------------------------------------
// Laws
// ---------------------------------------------------------------------------

/// The bytes of UTF-16 units, low byte first.
pub open spec fn little_endian(units: Seq<u16>) -> Seq<u8> {
    Seq::new(
        2 * units.len(),
        |i: int|
            if i % 2 == 0 {
                (units[i / 2] % 256) as u8
            } else {
                (units[i / 2] / 256) as u8
            },
    )
}

/// How many of the first `n` units have zero as their high byte.
pub open spec fn plain_units(units: Seq<u16>, n: nat) -> nat
    decreases n,
{
    if n == 0 {
        0
    } else {
        plain_units(units, (n - 1) as nat) + (if units[n - 1] < 256 {
            1nat
        } else {
            0
        })
    }
}

/// The UTF-16LE byte order mark.
pub open spec fn bom() -> Seq<u8> {
    seq![0xffu8, 0xfeu8]
}

proof fn lemma_little_endian(given: Seq<u16>)
    ensures
        units(little_endian(given)) == given,
{
    let bytes = little_endian(given);
    assert forall|i: int| 0 <= i < given.len() implies units(bytes)[i] == given[i] by {
        assert((2 * i) / 2 == i && (2 * i + 1) / 2 == i);
        assert(bytes[2 * i] == given[i] % 256);
        assert(bytes[2 * i + 1] == given[i] / 256);
    }
    assert(units(bytes) =~= given);
}

proof fn lemma_same_count(given: Seq<u16>, n: nat)
    requires
        n <= given.len(),
    ensures
        zero_high_bytes(little_endian(given), n) == plain_units(given, n),
    decreases n,
{
    if n > 0 {
        lemma_same_count(given, (n - 1) as nat);
        assert((2 * n - 1) / 2 == n - 1);
        assert(little_endian(given)[2 * n - 1] == given[n - 1] / 256);
    }
}

proof fn lemma_looks_utf16(given: Seq<u16>)
    requires
        2 * plain_units(given, given.len()) > given.len(),
    ensures
        looks_utf16(little_endian(given)),
        given.len() > 0,
{
    lemma_same_count(given, given.len());
    let length = little_endian(given).len();
    assert(length == 2 * given.len());
    assert(length / 2 == given.len() && length % 2 == 0 && length / 4 == given.len() / 2);
}

proof fn lemma_bom(bytes: Seq<u8>)
    ensures
        without_bom(bom() + bytes) == bytes,
{
    assert((bom() + bytes).skip(2) =~= bytes);
}

proof fn lemma_unmarked(given: Seq<u16>)
    requires
        given.len() > 0,
        given[0] != 0xfeff,
    ensures
        without_bom(little_endian(given)) == little_endian(given),
{
    assert(little_endian(given)[0] == given[0] % 256);
    assert(little_endian(given)[1] == given[0] / 256);
}

/// UTF-16LE output decodes to what was written, with and without a byte order
/// mark, whenever more than half of its units have zero as their high byte. An
/// unmarked run must not begin with a byte order mark of its own.
pub proof fn law_utf16_output_decodes(given: Seq<u16>)
    requires
        2 * plain_units(given, given.len()) > given.len(),
    ensures
        decoded(bom() + little_endian(given)) == text::decode_utf16(given),
        given[0] != 0xfeff ==> decoded(little_endian(given)) == text::decode_utf16(given),
{
    lemma_little_endian(given);
    lemma_looks_utf16(given);
    lemma_bom(little_endian(given));
    if given[0] != 0xfeff {
        lemma_unmarked(given);
    }
}

/// A text as UTF-16, for characters below U+0100.
pub open spec fn narrow_units(written: Seq<char>) -> Seq<u16> {
    written.map_values(|c: char| c as u16)
}

proof fn lemma_narrow_char(c: char)
    requires
        c <= '\u{ff}',
    ensures
        (c as u16) < 256,
        (c as u16) as char == c,
{
}

proof fn lemma_narrow_text(written: Seq<char>)
    requires
        forall|i: int| 0 <= i < written.len() ==> #[trigger] written[i] <= '\u{ff}',
    ensures
        text::decode_utf16(narrow_units(written)) == written,
        plain_units(narrow_units(written), written.len()) == written.len(),
    decreases written.len(),
{
    if written.len() > 0 {
        let rest = written.drop_first();
        lemma_narrow_text(rest);
        assert(narrow_units(written).skip(1) =~= narrow_units(rest));
        assert forall|i: int| 0 <= i < written.len() implies #[trigger] narrow_units(written)[i]
            < 256 by {
            lemma_narrow_char(written[i]);
        }
        lemma_narrow_char(written[0]);
        assert(seq![written[0]] + rest =~= written);
        lemma_all_plain(narrow_units(written), written.len());
    } else {
        assert(written =~= Seq::<char>::empty());
    }
}

proof fn lemma_all_plain(given: Seq<u16>, n: nat)
    requires
        n <= given.len(),
        forall|i: int| 0 <= i < given.len() ==> #[trigger] given[i] < 256,
    ensures
        plain_units(given, n) == n,
    decreases n,
{
    if n > 0 {
        lemma_all_plain(given, (n - 1) as nat);
    }
}

/// Text of characters below U+0100 comes back from UTF-16LE character for
/// character, and a byte order mark never becomes part of it.
pub proof fn law_narrow_text_survives_utf16(written: Seq<char>)
    requires
        forall|i: int| 0 <= i < written.len() ==> #[trigger] written[i] <= '\u{ff}',
    ensures
        decoded(little_endian(narrow_units(written))) == written,
        decoded(bom() + little_endian(narrow_units(written))) == written,
{
    let given = narrow_units(written);
    lemma_narrow_text(written);
    if written.len() > 0 {
        law_utf16_output_decodes(given);
    } else {
        let bytes = little_endian(given);
        assert(bytes =~= Seq::<u8>::empty());
        assert((bom() + bytes).skip(2) =~= bytes);
        assert(encode_utf8(written) =~= bytes);
        encode_utf8_valid_utf8(written);
        encode_utf8_decode_utf8(written);
    }
}

proof fn lemma_char_bytes(written: char)
    requires
        written != '\0',
    ensures
        forall|i: int|
            0 <= i < encode_scalar(written as u32).len() ==> 0 < #[trigger] encode_scalar(
                written as u32,
            )[i] < 0xff,
{
    let c = written as u32;
    assert(0 < c && c <= 0x7f ==> 0 < leading_byte_width_1(c) < 0xff) by (bit_vector);
    assert(0 < leading_byte_width_2(c) < 0xff) by (bit_vector);
    assert(0 < leading_byte_width_3(c) < 0xff) by (bit_vector);
    assert(0 < leading_byte_width_4(c) < 0xff) by (bit_vector);
    assert(0 < last_continuation_byte(c) < 0xff) by (bit_vector);
    assert(0 < second_last_continuation_byte(c) < 0xff) by (bit_vector);
    assert(0 < third_last_continuation_byte(c) < 0xff) by (bit_vector);
}

proof fn lemma_utf8_bytes(written: Seq<char>)
    requires
        forall|i: int| 0 <= i < written.len() ==> #[trigger] written[i] != '\0',
    ensures
        forall|i: int|
            0 <= i < encode_utf8(written).len() ==> 0 < #[trigger] encode_utf8(written)[i] < 0xff,
    decreases written.len(),
{
    if written.len() > 0 {
        lemma_utf8_bytes(written.drop_first());
        lemma_char_bytes(written[0]);
        let first = encode_scalar(written[0] as u32);
        let rest = encode_utf8(written.drop_first());
        assert(encode_utf8(written) == first + rest);
        assert forall|i: int| 0 <= i < encode_utf8(written).len() implies 0
            < #[trigger] encode_utf8(written)[i] < 0xff by {
            if i < first.len() {
                assert(encode_utf8(written)[i] == first[i]);
            } else {
                assert(encode_utf8(written)[i] == rest[i - first.len()]);
            }
        }
    }
}

proof fn lemma_no_zeros(body: Seq<u8>, n: nat)
    requires
        2 * n <= body.len(),
        forall|i: int| 0 <= i < body.len() ==> #[trigger] body[i] != 0,
    ensures
        zero_high_bytes(body, n) == 0,
    decreases n,
{
    if n > 0 {
        lemma_no_zeros(body, (n - 1) as nat);
    }
}

/// UTF-8 output without NUL characters comes back unchanged: it is never taken
/// for UTF-16.
pub proof fn law_utf8_output_survives(written: Seq<char>)
    requires
        forall|i: int| 0 <= i < written.len() ==> #[trigger] written[i] != '\0',
    ensures
        decoded(encode_utf8(written)) == written,
{
    let bytes = encode_utf8(written);
    lemma_utf8_bytes(written);
    lemma_no_zeros(bytes, bytes.len() / 2);
    encode_utf8_valid_utf8(written);
    encode_utf8_decode_utf8(written);
}

/// A usable distro name cannot be read as a flag, and holds nothing that could
/// lead out of a directory that it names.
pub proof fn law_a_distro_name_is_no_flag_and_no_path(name: Seq<char>)
    requires
        is_distro_name(name),
    ensures
        !text::begins_with(name, "-"@),
        !name.contains('/'),
        !name.contains('\\'),
        !name.contains(':'),
        !name.contains(' '),
{
    reveal_strlit("-");
    assert(name.subrange(0, 1)[0] == name[0]);
}

/// A name is usable exactly when it has 1 to 64 characters, all of them ASCII
/// letters, digits, dashes, dots or underscores, and the first of them no dash.
pub proof fn law_which_distro_names_are_usable(name: Seq<char>)
    ensures
        is_distro_name(name) <==> {
            &&& 1 <= name.len() <= 64
            &&& name[0] != '-'
            &&& forall|i: int|
                0 <= i < name.len() ==> {
                    ||| 48 <= #[trigger] name[i] as int <= 57
                    ||| 65 <= name[i] as int <= 90
                    ||| 97 <= name[i] as int <= 122
                    ||| name[i] as int == 45
                    ||| name[i] as int == 46
                    ||| name[i] as int == 95
                }
        },
{
    if is_distro_name(name) {
        assert forall|i: int| 0 <= i < name.len() implies {
            ||| 48 <= #[trigger] name[i] as int <= 57
            ||| 65 <= name[i] as int <= 90
            ||| 97 <= name[i] as int <= 122
            ||| name[i] as int == 45
            ||| name[i] as int == 46
            ||| name[i] as int == 95
        } by {
            assert(is_name_char(name[i]));
        }
    }
}

/// What is not mostly ASCII in UTF-16LE is read as UTF-8: an odd number of bytes, or
/// one in which at most half of the units have zero as their high byte. A byte order
/// mark is left out either way.
pub proof fn law_other_output_is_utf8(bytes: Seq<u8>, given: Seq<u16>)
    requires
        bytes.len() % 2 == 1,
        2 * plain_units(given, given.len()) <= given.len(),
    ensures
        decoded(bom() + bytes) == text::utf8_lossy(bytes),
        bytes.len() < 2 || bytes[0] != 0xff || bytes[1] != 0xfe ==> decoded(bytes)
            == text::utf8_lossy(bytes),
        decoded(bom() + little_endian(given)) == text::utf8_lossy(little_endian(given)),
        given.len() > 0 && given[0] != 0xfeff ==> decoded(little_endian(given)) == text::utf8_lossy(
            little_endian(given),
        ),
{
    lemma_bom(bytes);
    lemma_bom(little_endian(given));
    lemma_same_count(given, given.len());
    let length = little_endian(given).len();
    assert(length == 2 * given.len());
    assert(length / 2 == given.len() && length / 4 == given.len() / 2);
    if given.len() > 0 && given[0] != 0xfeff {
        lemma_unmarked(given);
    }
}

/// No distro is left out of a listing: every line of it that holds anything but
/// white space is the name of one, without the white space around it, and a line
/// that is blank is none. So a name is listed exactly when a line trims to it.
pub proof fn law_no_distro_is_left_out(output: ProcessOutput, name: Seq<char>)
    requires
        output.success,
    ensures
        distros(Ok(output)) is Ok,
        name.len() > 0 ==> (distros(Ok(output))->Ok_0.contains(name) <==> exists|i: int|
            0 <= i < text::lines_of(decoded(output.stdout@)).len() && text::trimmed(
                #[trigger] text::lines_of(decoded(output.stdout@))[i],
            ) == name),
        !distros(Ok(output))->Ok_0.contains(Seq::<char>::empty()),
{
    let shown = decoded(output.stdout@);
    let lines = text::lines_of(shown);
    let list = lines.map_values(|line: Seq<char>| text::trimmed(line));
    text::lemma_only_entries(list);
    assert forall|i: int| 0 <= i < lines.len() && text::trimmed(#[trigger] lines[i]) == name
        && name.len() > 0 implies distros(Ok(output))->Ok_0.contains(name) by {
        text::law_trimming_takes_white_space_only(lines[i]);
        text::law_no_entry_is_left_out(shown, i);
    }
    if distros(Ok(output))->Ok_0.contains(name) {
        assert(text::non_empty(list).contains(name));
        let i = choose|i: int| 0 <= i < list.len() && list[i] == name;
        assert(text::trimmed(lines[i]) == name);
    }
}

/// A name as a line of a listing.
pub open spec fn is_listed_line(name: Seq<char>) -> bool {
    &&& name.len() > 0
    &&& !text::is_white_space(name[0])
    &&& !text::is_white_space(name.last())
    &&& !name.contains('\n')
}

proof fn lemma_written_entries(names: Seq<Seq<char>>)
    requires
        forall|i: int| 0 <= i < names.len() ==> is_listed_line(#[trigger] names[i]),
    ensures
        text::entries_of(text::ended(names, "\n"@)) == names,
        text::entries_of(text::ended(names, "\r\n"@)) == names,
    decreases names.len(),
{
    reveal_strlit("\n");
    reveal_strlit("\r\n");
    assert("\n"@ =~= seq!['\n']);
    if names.len() > 0 {
        let name = names[0];
        let rest = names.drop_first();
        let none = Seq::<char>::empty();
        assert(is_listed_line(name));
        assert forall|i: int| 0 <= i < rest.len() implies is_listed_line(#[trigger] rest[i]) by {
            assert(is_listed_line(names[i + 1]));
        }
        lemma_written_entries(rest);
        let marked = name.push('\r');
        text::law_trimming_keeps_what_stands_between(none, name, none);
        assert(none + name + none =~= name);
        text::law_trimming_keeps_what_stands_between(none, name, seq!['\r']);
        assert(none + name + seq!['\r'] =~= marked);
        assert(!marked.contains('\n')) by {
            if marked.contains('\n') {
                let i = choose|i: int| 0 <= i < marked.len() && marked[i] == '\n';
                assert(name[i] == '\n');
            }
        }
        assert(!text::is_white_space(marked[0]));
        text::law_an_entry_comes_off(name, text::ended(rest, "\n"@));
        text::law_an_entry_comes_off(marked, text::ended(rest, "\r\n"@));
        assert(name + "\r\n"@ + text::ended(rest, "\r\n"@) =~= marked + seq!['\n'] + text::ended(
            rest,
            "\r\n"@,
        ));
        assert(seq![name] + rest =~= names);
    } else {
        text::law_an_entry_comes_off(Seq::empty(), Seq::empty());
        assert(text::ended(names, "\n"@) =~= Seq::<char>::empty());
        assert(text::ended(names, "\r\n"@) =~= Seq::<char>::empty());
        assert(names =~= Seq::<Seq<char>>::empty());
    }
}

/// The names that a listing was written from come back from it, all of them and in
/// order, however many there are: written in UTF-16LE, with or without a byte order
/// mark, or in UTF-8.
pub proof fn law_a_written_listing_comes_back(names: Seq<Seq<char>>, output: ProcessOutput)
    requires
        output.success,
        forall|i: int| 0 <= i < names.len() ==> is_listed_line(#[trigger] names[i]),
        ({
            let written = text::ended(names, "\r\n"@);
            let narrow = forall|i: int|
                0 <= i < written.len() ==> 0 < #[trigger] written[i] as int <= 255;
            let plain = forall|i: int| 0 <= i < written.len() ==> #[trigger] written[i] != '\0';
            ||| narrow && output.stdout@ == little_endian(narrow_units(written))
            ||| narrow && output.stdout@ == bom() + little_endian(narrow_units(written))
            ||| plain && output.stdout@ == encode_utf8(written)
        }),
    ensures
        distros(Ok(output)) == Ok::<Seq<Seq<char>>, Seq<char>>(names),
{
    let written = text::ended(names, "\r\n"@);
    lemma_written_entries(names);
    if output.stdout@ == encode_utf8(written) && (forall|i: int|
        0 <= i < written.len() ==> #[trigger] written[i] != '\0') {
        law_utf8_output_survives(written);
    } else {
        assert forall|i: int| 0 <= i < written.len() implies #[trigger] written[i] <= '\u{ff}' by {
            assert(written[i] as int <= 255);
        }
        law_narrow_text_survives_utf16(written);
    }
}

/// A listing that failed gives no names but a message, with what the system or
/// `wsl.exe` said.
pub proof fn law_a_failed_listing_says_why(
    output: ProcessOutput,
    e: String,
    list: Vec<String>,
)
    ensures
        distros(Err(e)) matches Err(message) && text::occurs_in(message, e@),
        !output.success ==> (distros(Ok(output)) matches Err(message) && text::ends_in(
            message,
            text::trimmed(decoded(output.stderr@)),
        )),
        list_view(Err(e)) == Err::<Seq<Seq<char>>, Seq<char>>(e@),
        list_view(Ok(list)) is Ok,
        list_view(Ok(list))->Ok_0.len() == list@.len(),
        forall|i: int| 0 <= i < list@.len() ==> #[trigger] list_view(Ok(list))->Ok_0[i] == list@[i]@,
{
    text::law_parts_are_found("could not run wsl: "@, e@, ". Is WSL installed?"@);
    text::law_parts_are_found(
        "wsl --list failed: "@,
        text::trimmed(decoded(output.stderr@)),
        Seq::empty(),
    );
}

} // verus!
