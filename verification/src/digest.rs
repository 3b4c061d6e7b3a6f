//! SHA-256 of artifacts read in pieces, and the pins that digests are held to.

use crate::command::optional;
use crate::text;
use sha2::Digest;
use vstd::prelude::*;

verus! {

/// A hasher takes fewer bytes than this: SHA-256 counts the bits of its input in
/// 64 bits.
pub const MAX_HASHED_BYTES: u64 = 0x2000_0000_0000_0000;

/// `sha2::Sha256`, the streaming SHA-256 state.
#[verifier::external_type_specification]
#[verifier::external_body]
pub struct ExSha256(sha2::Sha256);

/// The bytes that a hasher has been fed, in order.
pub uninterp spec fn sha256_fed(hasher: sha2::Sha256) -> Seq<u8>;

/// The SHA-256 digest of a byte sequence.
pub uninterp spec fn sha256(data: Seq<u8>) -> Seq<u8>;

/// `sha2::Sha256::new`: a hasher that has been fed nothing.
#[verifier::external_body]
fn sha256_new() -> (hasher: sha2::Sha256)
    ensures
        sha256_fed(hasher) == Seq::<u8>::empty(),
{
    sha2::Sha256::new()
}

/// `sha2::Sha256::update`: feeds the bytes behind those fed before. The bound
/// keeps the block count and the bit count from overflowing.
#[verifier::external_body]
fn sha256_update(hasher: &mut sha2::Sha256, data: &[u8])
    requires
        sha256_fed(*old(hasher)).len() + data@.len() < MAX_HASHED_BYTES,
    ensures
        sha256_fed(*final(hasher)) == sha256_fed(*old(hasher)) + data@,
{
    hasher.update(data)
}

/// `sha2::Sha256::finalize`: 32 bytes that depend on nothing but the bytes fed.
#[verifier::external_body]
fn sha256_finalize(hasher: sha2::Sha256) -> (digest: Vec<u8>)
    requires
        sha256_fed(hasher).len() < MAX_HASHED_BYTES,
    ensures
        digest@ == sha256(sha256_fed(hasher)),
        digest@.len() == 32,
{
    hasher.finalize().to_vec()
}

/// The digest to pin, from its configured form: without the white space around
/// it, and none when nothing is left.
pub open spec fn pinned(configured: Option<Seq<char>>) -> Option<Seq<char>> {
    match configured {
        Some(value) => if text::trimmed(value).len() > 0 {
            Some(text::trimmed(value))
        } else {
            None
        },
        None => None,
    }
}

pub fn pin_of(configured: &Option<String>) -> (pin: Option<String>)
    ensures
        optional(pin) == pinned(optional(*configured)),
{
    match configured {
        Some(value) => {
            let pin = text::trim(value);
            if pin.as_str().is_empty() {
                None
            } else {
                Some(pin)
            }
        },
        None => None,
    }
}

/// Two texts are the same but for the case of ASCII letters.
pub open spec fn same_but_for_case(a: Seq<char>, b: Seq<char>) -> bool {
    a.map_values(|c: char| text::ascii_lower(c)) == b.map_values(|c: char| text::ascii_lower(c))
}

pub fn same_ignoring_ascii_case(a: &str, b: &str) -> (r: bool)
    ensures
        r == same_but_for_case(a@, b@),
{
    let left = text::chars_of(a);
    let right = text::chars_of(b);
    let ghost lowered_left = a@.map_values(|c: char| text::ascii_lower(c));
    let ghost lowered_right = b@.map_values(|c: char| text::ascii_lower(c));
    if left.len() != right.len() {
        assert(lowered_left.len() != lowered_right.len());
        return false;
    }
    let mut i: usize = 0;
    while i < left.len()
        invariant
            left@ == a@,
            right@ == b@,
            left@.len() == right@.len(),
            lowered_left == a@.map_values(|c: char| text::ascii_lower(c)),
            lowered_right == b@.map_values(|c: char| text::ascii_lower(c)),
            forall|j: int| 0 <= j < i ==> lowered_left[j] == lowered_right[j],
            i <= left@.len(),
        decreases left@.len() - i,
    {
        if text::to_ascii_lower(left[i]) != text::to_ascii_lower(right[i]) {
            assert(lowered_left[i as int] != lowered_right[i as int]);
            return false;
        }
        i += 1;
    }
    assert(lowered_left =~= lowered_right);
    true
}

/// The lower-case hexadecimal digit for a number below sixteen.
pub open spec fn hex_digit(n: nat) -> char {
    if n < 10 {
        (48 + n) as char
    } else {
        (87 + n) as char
    }
}

/// Bytes in lower-case hexadecimal, two digits each.
pub open spec fn hex(bytes: Seq<u8>) -> Seq<char> {
    Seq::new(
        2 * bytes.len(),
        |i: int|
            if i % 2 == 0 {
                hex_digit((bytes[i / 2] / 16) as nat)
            } else {
                hex_digit((bytes[i / 2] % 16) as nat)
            },
    )
}

fn to_hex_digit(n: u8) -> (c: char)
    requires
        n < 16,
    ensures
        c == hex_digit(n as nat),
{
    if n < 10 {
        (48 + n) as char
    } else {
        (87 + n) as char
    }
}

pub fn to_hex(bytes: &Vec<u8>) -> (text: String)
    ensures
        text@ == hex(bytes@),
{
    let mut text = String::new();
    let mut i: usize = 0;
    while i < bytes.len()
        invariant
            i <= bytes@.len(),
            text@ == hex(bytes@).take(2 * i),
        decreases bytes@.len() - i,
    {
        text.push(to_hex_digit(bytes[i] / 16));
        text.push(to_hex_digit(bytes[i] % 16));
        i += 1;
        assert(text@ =~= hex(bytes@).take(2 * i));
    }
    assert(hex(bytes@).take(2 * i) =~= hex(bytes@));
    text
}

/// The SHA-256 of an artifact that arrives in pieces.
pub struct ArtifactHasher {
    hasher: sha2::Sha256,
}

impl View for ArtifactHasher {
    type V = Seq<u8>;

    /// The bytes that have arrived, in order.
    closed spec fn view(&self) -> Seq<u8> {
        sha256_fed(self.hasher)
    }
}

impl ArtifactHasher {
    #[verifier::type_invariant]
    spec fn counts_its_bits(self) -> bool {
        sha256_fed(self.hasher).len() < MAX_HASHED_BYTES
    }

    /// Before the first piece.
    pub fn new() -> (hasher: Self)
        ensures
            hasher@ == Seq::<u8>::empty(),
    {
        ArtifactHasher { hasher: sha256_new() }
    }

    /// With one more piece.
    pub fn update(self, piece: &[u8]) -> (next: Self)
        requires
            self@.len() + piece@.len() < MAX_HASHED_BYTES,
        ensures
            next@ == self@ + piece@,
    {
        let mut hasher = self.hasher;
        sha256_update(&mut hasher, piece);
        ArtifactHasher { hasher }
    }

    /// The digest of all the pieces, in lower-case hexadecimal.
    pub fn finish(self) -> (digest: String)
        ensures
            digest@ == hex(sha256(self@)),
            digest@.len() == 64,
    {
        proof {
            use_type_invariant(&self);
        }
        let digest = sha256_finalize(self.hasher);
        to_hex(&digest)
    }
}

// ---------------------------------------------------------------------------
// Laws
// ---------------------------------------------------------------------------

/// A pin is what is configured, without the white space around it, and there is none
/// exactly when nothing but white space is configured.
pub proof fn law_a_pin_is_what_is_configured(before: Seq<char>, pin: Seq<char>, after: Seq<char>)
    requires
        text::is_blank(before),
        text::is_blank(after),
        pin.len() > 0 ==> !text::is_white_space(pin[0]) && !text::is_white_space(pin.last()),
    ensures
        pin.len() > 0 ==> pinned(Some(before + pin + after)) == Some(pin),
        pin.len() == 0 ==> pinned(Some(before + pin + after)) is None,
        pinned(None) is None,
{
    text::law_trimming_keeps_what_stands_between(before, pin, after);
}

/// Two texts are the same but for case exactly when they have the same length and
/// hold, at each position, the same character or the two cases of one ASCII letter.
pub proof fn law_same_but_for_case_goes_by_characters(a: Seq<char>, b: Seq<char>)
    ensures
        same_but_for_case(a, b) <==> a.len() == b.len() && forall|i: int|
            0 <= i < a.len() ==> {
                ||| #[trigger] a[i] == b[i]
                ||| 65 <= a[i] as int <= 90 && b[i] as int == a[i] as int + 32
                ||| 65 <= b[i] as int <= 90 && a[i] as int == b[i] as int + 32
            },
{
    let lower = |c: char| text::ascii_lower(c);
    let left = a.map_values(lower);
    let right = b.map_values(lower);
    if same_but_for_case(a, b) {
        assert(left.len() == right.len());
        assert forall|i: int| 0 <= i < a.len() implies {
            ||| #[trigger] a[i] == b[i]
            ||| 65 <= a[i] as int <= 90 && b[i] as int == a[i] as int + 32
            ||| 65 <= b[i] as int <= 90 && a[i] as int == b[i] as int + 32
        } by {
            assert(left[i] == right[i]);
            text::law_ascii_characters(a[i]);
            text::law_ascii_characters(b[i]);
        }
    } else if a.len() == b.len() && forall|i: int|
        0 <= i < a.len() ==> {
            ||| #[trigger] a[i] == b[i]
            ||| 65 <= a[i] as int <= 90 && b[i] as int == a[i] as int + 32
            ||| 65 <= b[i] as int <= 90 && a[i] as int == b[i] as int + 32
        } {
        assert forall|i: int| 0 <= i < a.len() implies left[i] == right[i] by {
            text::law_ascii_characters(a[i]);
            text::law_ascii_characters(b[i]);
            assert(a[i] == b[i] || text::ascii_lower(a[i]) as int == text::ascii_lower(b[i]) as int);
        }
        assert(left =~= right);
    }
}

/// The number that a hexadecimal digit stands for.
pub open spec fn hex_value(digit: char) -> int {
    if digit as int <= 57 {
        digit as int - 48
    } else {
        digit as int - 87
    }
}

/// Hexadecimal text has two digits for each byte, high one first, that stand for
/// it, and they are lower-case ones.
pub proof fn law_hex_digits_stand_for_their_bytes(bytes: Seq<u8>, i: int)
    requires
        0 <= i < bytes.len(),
    ensures
        hex(bytes).len() == 2 * bytes.len(),
        16 * hex_value(hex(bytes)[2 * i]) + hex_value(hex(bytes)[2 * i + 1]) == bytes[i],
        48 <= hex(bytes)[2 * i] as int <= 57 || 97 <= hex(bytes)[2 * i] as int <= 102,
        48 <= hex(bytes)[2 * i + 1] as int <= 57 || 97 <= hex(bytes)[2 * i + 1] as int <= 102,
{
    assert((2 * i) / 2 == i && (2 * i) % 2 == 0);
    assert((2 * i + 1) / 2 == i && (2 * i + 1) % 2 == 1);
    let high = (bytes[i] / 16) as nat;
    let low = (bytes[i] % 16) as nat;
    assert(hex(bytes)[2 * i] == hex_digit(high));
    assert(hex(bytes)[2 * i + 1] == hex_digit(low));
    assert(high < 16 && low < 16);
    assert(hex_value(hex_digit(high)) == high);
    assert(hex_value(hex_digit(low)) == low);
}

} // verus!
