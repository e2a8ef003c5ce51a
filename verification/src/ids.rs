//! Identifiers of boxes and containers.
//!
//! A box is named by a ULID: 26 characters of Crockford base 32, ordered by
//! creation time. The container inside it is named by 64 lowercase
//! hexadecimal characters, the SHA-256 digest of 32 random bytes.

use rand::RngCore;
use sha2::Digest;
use vstd::prelude::*;

use crate::text::chars_of;
use crate::text::is_lower_hex;
use crate::text::is_lower_hex_char;
use crate::text::push_str;
use crate::text::string_of;
use crate::text::sub_vec;

verus! {

/// The identifier of a box.
pub type BoxID = String;

/// Length of a box identifier.
pub const BOX_ID_LENGTH: usize = 26;

/// The number of random bytes that a container identifier is made from.
pub const SEED_LENGTH: usize = 32;

// ============================================================================
// Box identifiers
// ============================================================================

/// A character that may stand in a box identifier: a digit or an uppercase
/// letter other than `I` and `O`.
pub open spec fn is_box_id_char(c: char) -> bool {
    ||| '0' <= c <= '9'
    ||| 'A' <= c <= 'H'
    ||| 'J' <= c <= 'N'
    ||| 'P' <= c <= 'Z'
}

/// The shape of a box identifier: 26 characters, each a digit or an
/// uppercase letter other than `I` and `O`.
pub open spec fn is_box_id(s: Seq<char>) -> bool {
    &&& s.len() == 26
    &&& forall|i: int| 0 <= i < s.len() ==> is_box_id_char(#[trigger] s[i])
}

/// The Crockford base 32 digit for a value below 32, from the alphabet
/// `0123456789ABCDEFGHJKMNPQRSTVWXYZ`.
pub open spec fn crockford_digit(d: int) -> char {
    "0123456789ABCDEFGHJKMNPQRSTVWXYZ"@[d]
}

/// The 26 Crockford digits of a 128-bit value, most significant first. Each
/// digit stands for five bits.
pub open spec fn crockford_text(value: u128) -> Seq<char> {
    Seq::new(26, |i: int| crockford_digit(((value as int) / pow32(25 - i)) % 32))
}

/// 32 to the power `e`.
pub open spec fn pow32(e: int) -> int
    decreases e,
{
    if e <= 0 {
        1
    } else {
        32 * pow32(e - 1)
    }
}

/// Every text of Crockford digits has the shape of a box identifier.
pub proof fn lemma_crockford_text_is_box_id(value: u128)
    ensures
        is_box_id(crockford_text(value)),
{
    reveal_strlit("0123456789ABCDEFGHJKMNPQRSTVWXYZ");
    let s = crockford_text(value);
    assert forall|i: int| 0 <= i < s.len() implies is_box_id_char(#[trigger] s[i]) by {
        let d = ((value as int) / pow32(25 - i)) % 32;
        lemma_pow32_positive(25 - i);
        assert(0 <= d < 32);
        assert(s[i] == crockford_digit(d));
        lemma_crockford_digit_shape(d);
    }
}

proof fn lemma_pow32_positive(e: int)
    ensures
        pow32(e) >= 1,
    decreases e,
{
    if e > 0 {
        lemma_pow32_positive(e - 1);
    }
}

proof fn lemma_crockford_digit_shape(d: int)
    requires
        0 <= d < 32,
    ensures
        is_box_id_char(crockford_digit(d)),
{
    reveal_strlit("0123456789ABCDEFGHJKMNPQRSTVWXYZ");
    let a = "0123456789ABCDEFGHJKMNPQRSTVWXYZ"@;
    assert(a.len() == 32);
    assert(is_box_id_char(a[0]) && is_box_id_char(a[1]) && is_box_id_char(a[2]) && is_box_id_char(
        a[3],
    ) && is_box_id_char(a[4]) && is_box_id_char(a[5]) && is_box_id_char(a[6]) && is_box_id_char(
        a[7],
    ));
    assert(is_box_id_char(a[8]) && is_box_id_char(a[9]) && is_box_id_char(a[10])
        && is_box_id_char(a[11]) && is_box_id_char(a[12]) && is_box_id_char(a[13])
        && is_box_id_char(a[14]) && is_box_id_char(a[15]));
    assert(is_box_id_char(a[16]) && is_box_id_char(a[17]) && is_box_id_char(a[18])
        && is_box_id_char(a[19]) && is_box_id_char(a[20]) && is_box_id_char(a[21])
        && is_box_id_char(a[22]) && is_box_id_char(a[23]));
    assert(is_box_id_char(a[24]) && is_box_id_char(a[25]) && is_box_id_char(a[26])
        && is_box_id_char(a[27]) && is_box_id_char(a[28]) && is_box_id_char(a[29])
        && is_box_id_char(a[30]) && is_box_id_char(a[31]));
}

/// `ulid::Ulid::new` of the `ulid` crate, read as its 128-bit value. The
/// value holds the current time and random bits, so nothing is claimed of
/// it.
#[verifier::external_body]
fn fresh_ulid_value() -> (value: u128) {
    ulid::Ulid::new().0
}

/// `ulid::Ulid::to_string` of the `ulid` crate, applied to the ULID with the
/// given value: the 26 digits of the value in Crockford base 32, most
/// significant first, five bits to a digit.
#[verifier::external_body]
fn ulid_text(value: u128) -> (text: String)
    ensures
        text@ == crockford_text(value),
{
    ulid::Ulid(value).to_string()
}

/// The box identifier that stands for a 128-bit ULID value.
pub fn box_id_from_value(value: u128) -> (id: BoxID)
    ensures
        id@ == crockford_text(value),
        is_box_id(id@),
{
    proof {
        lemma_crockford_text_is_box_id(value);
    }
    ulid_text(value)
}

/// A new box identifier, made from the current time and random bits: the
/// Crockford text of a 128-bit value.
pub fn generate_box_id() -> (id: BoxID)
    ensures
        is_box_id(id@),
        exists|value: u128| id@ == #[trigger] crockford_text(value),
{
    box_id_from_value(fresh_ulid_value())
}

/// Whether a text has the shape of a box identifier.
pub fn is_valid_box_id(s: &str) -> (r: bool)
    ensures
        r == is_box_id(s@),
{
    let v = chars_of(s);
    if v.len() != BOX_ID_LENGTH {
        return false;
    }
    let mut i: usize = 0;
    while i < v.len()
        invariant
            i <= v.len(),
            v.len() == 26,
            v@ == s@,
            forall|j: int| 0 <= j < i ==> is_box_id_char(#[trigger] v@[j]),
        decreases v.len() - i,
    {
        let c = v[i];
        let ok = ('0' <= c && c <= '9') || ('A' <= c && c <= 'H') || ('J' <= c && c <= 'N') || ('P'
            <= c && c <= 'Z');
        if !ok {
            assert(!is_box_id_char(s@[i as int]));
            return false;
        }
        i += 1;
    }
    true
}

// ============================================================================
// Container identifiers
// ============================================================================

/// The shape of a container identifier: 64 lowercase hexadecimal characters.
pub open spec fn is_container_id(s: Seq<char>) -> bool {
    &&& s.len() == 64
    &&& forall|i: int| 0 <= i < s.len() ==> is_lower_hex(#[trigger] s[i])
}

/// The lowercase hexadecimal digit for a value below 16.
pub open spec fn hex_digit(d: int) -> char {
    "0123456789abcdef"@[d]
}

/// The lowercase hexadecimal text of a run of bytes: two digits to a byte,
/// the high four bits first.
pub open spec fn hex_text(bytes: Seq<u8>) -> Seq<char> {
    Seq::new(
        2 * bytes.len(),
        |i: int|
            if i % 2 == 0 {
                hex_digit((bytes[i / 2] as int) / 16)
            } else {
                hex_digit((bytes[i / 2] as int) % 16)
            },
    )
}

/// The SHA-256 digest of a run of bytes.
pub uninterp spec fn sha256(data: Seq<u8>) -> Seq<u8>;

/// `Sha256::digest` of the `sha2` crate: the SHA-256 digest of the data,
/// which is 32 bytes long.
#[verifier::external_body]
fn sha256_digest(data: &Vec<u8>) -> (digest: Vec<u8>)
    ensures
        digest@ == sha256(data@),
        digest@.len() == 32,
{
    sha2::Sha256::digest(data).to_vec()
}

/// `hex::encode` of the `hex` crate: every byte as two lowercase
/// hexadecimal digits, the high four bits first.
#[verifier::external_body]
fn hex_encode(data: &Vec<u8>) -> (text: String)
    ensures
        text@ == hex_text(data@),
{
    hex::encode(data)
}

/// `fill_bytes` of the `rand` crate on the thread's generator, for a buffer
/// of `n` bytes. The bytes are random: only their number is stated.
#[verifier::external_body]
fn random_bytes(n: usize) -> (bytes: Vec<u8>)
    ensures
        bytes@.len() == n,
{
    let mut bytes: Vec<u8> = Vec::new();
    bytes.resize(n, 0);
    rand::rng().fill_bytes(&mut bytes);
    bytes
}

/// The SHA-256 digest of the data, in lowercase hexadecimal.
pub fn sha256_hex(data: &Vec<u8>) -> (text: String)
    ensures
        text@ == hex_text(sha256(data@)),
        is_container_id(text@),
{
    let digest = sha256_digest(data);
    proof {
        lemma_hex_text_is_container_id(digest@);
    }
    hex_encode(&digest)
}

/// The hexadecimal text of 32 bytes has the shape of a container identifier.
pub proof fn lemma_hex_text_is_container_id(bytes: Seq<u8>)
    requires
        bytes.len() == 32,
    ensures
        is_container_id(hex_text(bytes)),
{
    reveal_strlit("0123456789abcdef");
    let a = "0123456789abcdef"@;
    assert(a.len() == 16);
    assert(is_lower_hex(a[0]) && is_lower_hex(a[1]) && is_lower_hex(a[2]) && is_lower_hex(a[3])
        && is_lower_hex(a[4]) && is_lower_hex(a[5]) && is_lower_hex(a[6]) && is_lower_hex(a[7]));
    assert(is_lower_hex(a[8]) && is_lower_hex(a[9]) && is_lower_hex(a[10]) && is_lower_hex(a[11])
        && is_lower_hex(a[12]) && is_lower_hex(a[13]) && is_lower_hex(a[14]) && is_lower_hex(
        a[15],
    ));
    let s = hex_text(bytes);
    assert forall|i: int| 0 <= i < s.len() implies is_lower_hex(#[trigger] s[i]) by {
        let b = bytes[i / 2] as int;
        assert(0 <= b / 16 < 16);
        assert(0 <= b % 16 < 16);
    }
}

/// The identifier of the container inside a box.
#[derive(Debug, PartialEq, Eq, Hash)]
pub struct ContainerId(String);

impl Clone for ContainerId {
    fn clone(&self) -> (r: ContainerId)
        ensures
            r@ == self@,
    {
        proof {
            use_type_invariant(self);
        }
        ContainerId(self.0.clone())
    }
}

impl View for ContainerId {
    type V = Seq<char>;

    closed spec fn view(&self) -> Seq<char> {
        self.0@
    }
}

impl ContainerId {
    /// Length of a container identifier.
    pub const FULL_LENGTH: usize = 64;

    /// Length of the short form shown to users.
    pub const SHORT_LENGTH: usize = 12;

    #[verifier::type_invariant]
    spec fn well_formed(&self) -> bool {
        is_container_id(self.0@)
    }

    /// A new random identifier: the hexadecimal text of the SHA-256 digest
    /// of 32 random bytes.
    pub fn new() -> (id: ContainerId)
        ensures
            is_container_id(id@),
            exists|seed: Seq<u8>|
                seed.len() == SEED_LENGTH && id@ == hex_text(#[trigger] sha256(seed)),
    {
        let seed = random_bytes(SEED_LENGTH);
        ContainerId::from_seed(&seed)
    }

    /// The identifier made from a seed: the hexadecimal text of the seed's
    /// SHA-256 digest.
    pub fn from_seed(seed: &Vec<u8>) -> (id: ContainerId)
        ensures
            id@ == hex_text(sha256(seed@)),
            is_container_id(id@),
    {
        let digest = sha256_digest(seed);
        proof {
            lemma_hex_text_is_container_id(digest@);
        }
        ContainerId(hex_encode(&digest))
    }

    /// Reads an identifier. `None` unless the text is 64 lowercase
    /// hexadecimal characters.
    pub fn parse(s: &str) -> (r: Option<ContainerId>)
        ensures
            r is Some <==> is_container_id(s@),
            r matches Some(id) ==> id@ == s@,
    {
        if ContainerId::is_valid(s) {
            Some(ContainerId(s.to_string()))
        } else {
            None
        }
    }

    /// Whether a text has the shape of a container identifier.
    pub fn is_valid(s: &str) -> (r: bool)
        ensures
            r == is_container_id(s@),
    {
        let v = chars_of(s);
        if v.len() != ContainerId::FULL_LENGTH {
            return false;
        }
        let mut i: usize = 0;
        while i < v.len()
            invariant
                i <= v.len(),
                v.len() == 64,
                v@ == s@,
                forall|j: int| 0 <= j < i ==> is_lower_hex(#[trigger] v@[j]),
            decreases v.len() - i,
        {
            if !is_lower_hex_char(v[i]) {
                assert(!is_lower_hex(s@[i as int]));
                return false;
            }
            i += 1;
        }
        true
    }

    /// The full identifier.
    pub fn as_str(&self) -> (r: &str)
        ensures
            r@ == self@,
            is_container_id(r@),
    {
        proof {
            use_type_invariant(self);
        }
        self.0.as_str()
    }

    /// The first 12 characters, for display.
    pub fn short(&self) -> (r: &str)
        ensures
            r@ == self@.take(12),
    {
        proof {
            use_type_invariant(self);
        }
        self.0.as_str().substring_char(0, ContainerId::SHORT_LENGTH)
    }

    /// The printed form: the full identifier.
    pub fn to_string(&self) -> (r: String)
        ensures
            r@ == self@,
    {
        self.0.clone()
    }

    /// The form shown when debugging: `ContainerId(` and the short form in
    /// brackets.
    pub fn debug_string(&self) -> (r: String)
        ensures
            r@ == "ContainerId("@ + self@.take(12) + ")"@,
    {
        let mut out = chars_of("ContainerId(");
        push_str(&mut out, self.short());
        push_str(&mut out, ")");
        string_of(&out)
    }
}

} // verus!
