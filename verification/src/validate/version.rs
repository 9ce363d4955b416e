//! Validation of [`proto::Version`].

use crate::proto;
use crate::validate::{Context, Validate};
use crate::version::SemVer;
use vstd::prelude::*;
use vstd::string::StrSliceExecFns;

verus! {

/// Whether a character is a lowercase hexadecimal digit.
pub open spec fn is_lower_hex_char(c: char) -> bool {
    ('0' <= c && c <= '9') || ('a' <= c && c <= 'f')
}

/// Whether a character is a lowercase hexadecimal digit.
pub fn lower_hex_char(c: char) -> (b: bool)
    ensures
        b == is_lower_hex_char(c),
{
    ('0' <= c && c <= '9') || ('a' <= c && c <= 'f')
}

/// The numeric value of a lowercase hexadecimal digit.
pub open spec fn hex_val(c: char) -> u8 {
    if c == '0' {
        0
    } else if c == '1' {
        1
    } else if c == '2' {
        2
    } else if c == '3' {
        3
    } else if c == '4' {
        4
    } else if c == '5' {
        5
    } else if c == '6' {
        6
    } else if c == '7' {
        7
    } else if c == '8' {
        8
    } else if c == '9' {
        9
    } else if c == 'a' {
        10
    } else if c == 'b' {
        11
    } else if c == 'c' {
        12
    } else if c == 'd' {
        13
    } else if c == 'e' {
        14
    } else {
        15
    }
}

/// The lowercase hexadecimal digit of a value below sixteen.
pub open spec fn hex_digit(n: u8) -> char {
    if n == 0 {
        '0'
    } else if n == 1 {
        '1'
    } else if n == 2 {
        '2'
    } else if n == 3 {
        '3'
    } else if n == 4 {
        '4'
    } else if n == 5 {
        '5'
    } else if n == 6 {
        '6'
    } else if n == 7 {
        '7'
    } else if n == 8 {
        '8'
    } else if n == 9 {
        '9'
    } else if n == 10 {
        'a'
    } else if n == 11 {
        'b'
    } else if n == 12 {
        'c'
    } else if n == 13 {
        'd'
    } else if n == 14 {
        'e'
    } else {
        'f'
    }
}

/// The lowercase hexadecimal encoding of a byte sequence: two digits per
/// byte, high nibble first.
pub open spec fn hex_encode_seq(bytes: Seq<u8>) -> Seq<char> {
    Seq::new(
        bytes.len() * 2,
        |i: int|
            if i % 2 == 0 {
                hex_digit(bytes[i / 2] / 16)
            } else {
                hex_digit(bytes[i / 2] % 16)
            },
    )
}

/// The bytes denoted by a lowercase hexadecimal string of even length: one
/// byte per digit pair, high nibble first.
pub open spec fn hex_decode_seq(s: Seq<char>) -> Seq<u8> {
    Seq::new(s.len() / 2, |i: int| (hex_val(s[2 * i]) as int * 16 + hex_val(s[2 * i + 1]) as int) as u8)
}

/// A lowercase hexadecimal digit's value is below sixteen, and its digit is
/// the character itself.
pub proof fn lemma_hex_digit_val(c: char)
    requires
        is_lower_hex_char(c),
    ensures
        hex_val(c) < 16,
        hex_digit(hex_val(c)) == c,
{
}

/// Decoding a lowercase hexadecimal string and encoding the bytes again
/// yields the identical string.
pub proof fn lemma_hex_round_trip(s: Seq<char>)
    requires
        s.len() % 2 == 0,
        forall|i: int| 0 <= i < s.len() ==> is_lower_hex_char(#[trigger] s[i]),
    ensures
        hex_encode_seq(hex_decode_seq(s)) == s,
{
    let d = hex_decode_seq(s);
    let e = hex_encode_seq(d);
    assert(e.len() == s.len());
    assert forall|i: int| 0 <= i < s.len() implies e[i] == s[i] by {
        let j = i / 2;
        lemma_hex_digit_val(s[2 * j]);
        lemma_hex_digit_val(s[2 * j + 1]);
        let x = hex_val(s[2 * j]) as int;
        let y = hex_val(s[2 * j + 1]) as int;
        assert(d[j] == (x * 16 + y) as u8);
        assert((x * 16 + y) / 16 == x && (x * 16 + y) % 16 == y) by (nonlinear_arith)
            requires
                0 <= x < 16,
                0 <= y < 16,
        ;
        if i % 2 == 0 {
            assert(i == 2 * j);
            assert(e[i] == hex_digit(d[j] / 16));
        } else {
            assert(i == 2 * j + 1);
            assert(e[i] == hex_digit(d[j] % 16));
        }
    }
    assert(e =~= s);
}

/// Relies on `hex::decode`: on a string of hexadecimal digit pairs it
/// yields one byte per pair, high nibble first.
#[verifier::external_body]
fn hex_decode(s: &str) -> (r: Vec<u8>)
    requires
        s@.len() % 2 == 0,
        forall|i: int| 0 <= i < s@.len() ==> is_lower_hex_char(#[trigger] s@[i]),
    ensures
        r@ == hex_decode_seq(s@),
{
    hex::decode(s).unwrap()
}

/// Relies on `hex::encode`: two lowercase hexadecimal digits per byte, high
/// nibble first.
#[verifier::external_body]
fn hex_encode(bytes: &Vec<u8>) -> (r: String)
    ensures
        r@ == hex_encode_seq(bytes@),
{
    hex::encode(bytes)
}

/// A validated [`proto::Version`]: the version numbers are not all zero,
/// and the git hash, when present, has been decoded from forty lowercase
/// hexadecimal characters to twenty raw bytes.
#[derive(Debug, PartialEq)]
pub struct Version {
    /// The semantic version.
    pub version: SemVer,
    /// The git hash as raw bytes, when one was set.
    pub git_hash: Option<Vec<u8>>,
    /// The producer string, when a non-empty one was set.
    pub producer: Option<String>,
}

/// The mathematical value of a [`Version`].
#[verifier::ext_equal]
pub struct VersionV {
    /// The semantic version.
    pub version: SemVer,
    /// The git hash bytes, when one was set.
    pub git_hash: Option<Seq<u8>>,
    /// The producer, when a non-empty one was set.
    pub producer: Option<Seq<char>>,
}

impl View for Version {
    type V = VersionV;

    open spec fn view(&self) -> VersionV {
        VersionV {
            version: self.version,
            git_hash: match self.git_hash {
                Some(h) => Some(h@),
                None => None,
            },
            producer: match self.producer {
                Some(p) => Some(p@),
                None => None,
            },
        }
    }
}

impl Version {
    /// Whether a validated version is internally consistent: each number
    /// fits the wire format's range, a git hash holds twenty bytes, and a
    /// producer is never the empty string.
    pub open spec fn wf(&self) -> bool {
        &&& self.version.major <= u32::MAX
        &&& self.version.minor <= u32::MAX
        &&& self.version.patch <= u32::MAX
        &&& match self@.git_hash {
            Some(h) => h.len() == 20,
            None => true,
        }
        &&& match self@.producer {
            Some(p) => p.len() != 0,
            None => true,
        }
    }

    /// The semantic version.
    pub fn version(&self) -> (v: &SemVer)
        ensures
            *v == self@.version,
    {
        &self.version
    }

    /// The git hash bytes, when one was set.
    pub fn git_hash(&self) -> (h: Option<&Vec<u8>>)
        ensures
            match h {
                Some(h) => self@.git_hash matches Some(hv) && hv == h@,
                None => self@.git_hash is None,
            },
    {
        self.git_hash.as_ref()
    }

    /// The producer, when a non-empty one was set.
    pub fn producer(&self) -> (p: Option<&String>)
        ensures
            match p {
                Some(p) => self@.producer matches Some(pv) && pv == p@,
                None => self@.producer is None,
            },
    {
        self.producer.as_ref()
    }

    /// The raw record this version converts back to. The conversion
    /// re-encodes the git hash and maps an absent hash or producer to the
    /// empty string.
    pub fn into_raw(self) -> (r: proto::Version)
        requires
            self.wf(),
        ensures
            r@ == version_to_raw_v(self@),
    {
        let Version { version, git_hash, producer } = self;
        proto::Version {
            major_number: version.major as u32,
            minor_number: version.minor as u32,
            patch_number: version.patch as u32,
            git_hash: match &git_hash {
                Some(h) => hex_encode(h),
                None => String::new(),
            },
            producer: match producer {
                Some(p) => p,
                None => String::new(),
            },
        }
    }
}

/// Validation errors for [`proto::Version`].
#[derive(Debug, PartialEq)]
pub enum VersionError {
    /// The git hash is not a string of forty lowercase hexadecimal
    /// characters; carries the offending string unchanged.
    GitHash(String),
    /// No version number is set.
    Missing,
}

/// The mathematical value of a [`VersionError`].
pub enum VersionErrV {
    /// The offending git-hash string.
    GitHash(Seq<char>),
    /// No version number was set.
    Missing,
}

impl View for VersionError {
    type V = VersionErrV;

    open spec fn view(&self) -> VersionErrV {
        match *self {
            VersionError::GitHash(s) => VersionErrV::GitHash(s@),
            VersionError::Missing => VersionErrV::Missing,
        }
    }
}

/// The mathematical value of a [`proto::Version`] record.
#[verifier::ext_equal]
pub struct RawVersionV {
    /// The major version number.
    pub major_number: u32,
    /// The minor version number.
    pub minor_number: u32,
    /// The patch version number.
    pub patch_number: u32,
    /// The git hash string.
    pub git_hash: Seq<char>,
    /// The producer string.
    pub producer: Seq<char>,
}

impl View for proto::Version {
    type V = RawVersionV;

    open spec fn view(&self) -> RawVersionV {
        RawVersionV {
            major_number: self.major_number,
            minor_number: self.minor_number,
            patch_number: self.patch_number,
            git_hash: self.git_hash@,
            producer: self.producer@,
        }
    }
}

/// Whether a raw version record has any version number set. All three zero
/// is indistinguishable from "not set" and is treated as absent.
pub open spec fn version_present(raw: RawVersionV) -> bool {
    raw.major_number != 0 || raw.minor_number != 0 || raw.patch_number != 0
}

/// Whether a git-hash string is well-formed: exactly forty lowercase
/// hexadecimal characters.
pub open spec fn valid_git_hash(s: Seq<char>) -> bool {
    s.len() == 40 && forall|i: int| 0 <= i < s.len() ==> is_lower_hex_char(#[trigger] s[i])
}

/// What validating a raw version record yields: an error when no number is
/// set, an error carrying the original string when a non-empty git hash is
/// not forty lowercase hexadecimal characters, and otherwise the version
/// with the hash decoded to bytes and empty strings mapped to absent
/// values.
pub open spec fn validate_version_v(raw: RawVersionV) -> Result<VersionV, VersionErrV> {
    if !version_present(raw) {
        Err(VersionErrV::Missing)
    } else if raw.git_hash.len() != 0 && !valid_git_hash(raw.git_hash) {
        Err(VersionErrV::GitHash(raw.git_hash))
    } else {
        Ok(
            VersionV {
                version: SemVer {
                    major: raw.major_number as u64,
                    minor: raw.minor_number as u64,
                    patch: raw.patch_number as u64,
                },
                git_hash: if raw.git_hash.len() == 0 {
                    None
                } else {
                    Some(hex_decode_seq(raw.git_hash))
                },
                producer: if raw.producer.len() == 0 {
                    None
                } else {
                    Some(raw.producer)
                },
            },
        )
    }
}

/// The raw record a validated version converts back to.
pub open spec fn version_to_raw_v(v: VersionV) -> RawVersionV {
    RawVersionV {
        major_number: v.version.major as u32,
        minor_number: v.version.minor as u32,
        patch_number: v.version.patch as u32,
        git_hash: match v.git_hash {
            Some(h) => hex_encode_seq(h),
            None => Seq::empty(),
        },
        producer: match v.producer {
            Some(p) => p,
            None => Seq::empty(),
        },
    }
}

/// The mathematical value of a version-or-error result.
pub open spec fn version_res_v(r: Result<Version, VersionError>) -> Result<VersionV, VersionErrV> {
    match r {
        Ok(v) => Ok(v@),
        Err(e) => Err(e@),
    }
}

/// Converting a validated version back to a raw record and validating that
/// record yields no error; together with
/// [`lemma_validate_version_round_trip`] this makes validation and
/// conversion mutually inverse on validated data.
pub proof fn lemma_validate_version_round_trip(raw: RawVersionV)
    requires
        validate_version_v(raw) is Ok,
    ensures
        version_to_raw_v(validate_version_v(raw)->Ok_0) == raw,
{
    let v = validate_version_v(raw)->Ok_0;
    if raw.git_hash.len() != 0 {
        lemma_hex_round_trip(raw.git_hash);
    }
    assert(version_to_raw_v(v) =~= raw);
}

/// A version record with any number set and an empty git hash validates,
/// whatever its producer, and the validated version converts back to the
/// identical record.
pub proof fn lemma_version_success(raw: RawVersionV)
    requires
        version_present(raw),
        raw.git_hash.len() == 0,
    ensures
        validate_version_v(raw) is Ok,
        version_to_raw_v(validate_version_v(raw)->Ok_0) == raw,
{
    lemma_validate_version_round_trip(raw);
}

/// A version record with any number set and a well-formed git hash of
/// forty lowercase hexadecimal characters validates, and re-encoding the
/// decoded bytes yields the identical string.
pub proof fn lemma_git_hash_round_trip(raw: RawVersionV)
    requires
        version_present(raw),
        valid_git_hash(raw.git_hash),
    ensures
        validate_version_v(raw) is Ok,
        validate_version_v(raw)->Ok_0.git_hash matches Some(h) && hex_encode_seq(h)
            == raw.git_hash,
{
    lemma_hex_round_trip(raw.git_hash);
}

impl<C: Context> Validate<C> for proto::Version {
    type Validated = Version;

    type Error = VersionError;

    /// Validates a raw version record: some version number must be set, and
    /// a non-empty git hash must be forty lowercase hexadecimal characters,
    /// which are decoded to twenty bytes. The context is not consulted and
    /// is left unchanged.
    #[verifier::loop_isolation(false)]
    fn validate(self, ctx: &mut C) -> (r: Result<Self::Validated, Self::Error>)
        ensures
            version_res_v(r) == validate_version_v(self@),
            r matches Ok(v) ==> v.wf(),
            *final(ctx) == *old(ctx),
    {
        let proto::Version { major_number, minor_number, patch_number, git_hash, producer } = self;
        if major_number == 0 && minor_number == 0 && patch_number == 0 {
            return Err(VersionError::Missing);
        }
        let hash_chars = git_hash.as_str().unicode_len();
        let decoded: Option<Vec<u8>> = if hash_chars == 0 {
            None
        } else {
            if hash_chars != 40 {
                return Err(VersionError::GitHash(git_hash));
            }
            let mut i: usize = 0;
            while i < 40
                invariant
                    i <= 40,
                    git_hash@.len() == 40,
                    forall|j: int| 0 <= j < i ==> is_lower_hex_char(#[trigger] git_hash@[j]),
                decreases 40 - i,
            {
                let c = git_hash.as_str().get_char(i);
                if !lower_hex_char(c) {
                    return Err(VersionError::GitHash(git_hash));
                }
                i = i + 1;
            }
            Some(hex_decode(git_hash.as_str()))
        };
        let producer_opt: Option<String> = if producer.as_str().is_empty() {
            None
        } else {
            Some(producer)
        };
        Ok(
            Version {
                version: SemVer {
                    major: major_number as u64,
                    minor: minor_number as u64,
                    patch: patch_number as u64,
                },
                git_hash: decoded,
                producer: producer_opt,
            },
        )
    }
}

} // verus!
