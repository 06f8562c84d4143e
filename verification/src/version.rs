//! Content-addressed version identifiers for edits.
//!
//! An [`EditVersion`] is the first 16 bytes of the SHA-256 digest of the
//! diff string it identifies; it renders as 32 lowercase hex digits.

use vstd::prelude::*;

verus! {

/// The SHA-256 digest of the UTF-8 bytes of a text. The digest is a pure
/// function of the text, so contracts may speak of it by this name.
pub uninterp spec fn sha256_of(s: Seq<char>) -> Seq<u8>;

/// The bytes of the version that identifies a diff: the first 16 bytes of
/// its SHA-256 digest.
pub open spec fn version_bytes_of(diff: Seq<char>) -> Seq<u8> {
    sha256_of(diff).take(16)
}

/// The version of the empty diff, the canonical predecessor of the very
/// first edit of any article.
pub open spec fn default_version_bytes() -> Seq<u8> {
    version_bytes_of(Seq::<char>::empty())
}

/// The lowercase hex digit for a nibble.
pub open spec fn hex_digit(n: u8) -> char {
    if n == 0 { '0' } else if n == 1 { '1' } else if n == 2 { '2' }
    else if n == 3 { '3' } else if n == 4 { '4' } else if n == 5 { '5' }
    else if n == 6 { '6' } else if n == 7 { '7' } else if n == 8 { '8' }
    else if n == 9 { '9' } else if n == 10 { 'a' } else if n == 11 { 'b' }
    else if n == 12 { 'c' } else if n == 13 { 'd' } else if n == 14 { 'e' }
    else { 'f' }
}

/// Whether a character is a lowercase hex digit.
pub open spec fn is_hex_char(c: char) -> bool {
    exists|n: u8| n < 16 && c == hex_digit(n)
}

/// Lowercase hex rendering of a byte string, high nibble of each byte first.
pub open spec fn hex_of(bytes: Seq<u8>) -> Seq<char>
    decreases bytes.len(),
{
    if bytes.len() == 0 {
        Seq::<char>::empty()
    } else {
        seq![hex_digit((bytes[0] / 16) as u8), hex_digit((bytes[0] % 16) as u8)]
            + hex_of(bytes.drop_first())
    }
}

/// Hex rendering doubles the length and yields lowercase hex digits only.
pub proof fn lemma_hex_of_props(bytes: Seq<u8>)
    ensures
        hex_of(bytes).len() == 2 * bytes.len(),
        forall|i: int| 0 <= i < hex_of(bytes).len() ==> is_hex_char(#[trigger] hex_of(bytes)[i]),
    decreases bytes.len(),
{
    if bytes.len() == 0 {
    } else {
        lemma_hex_of_props(bytes.drop_first());
        assert(is_hex_char(hex_digit((bytes[0] / 16) as u8)));
        assert(is_hex_char(hex_digit((bytes[0] % 16) as u8)));
    }
}

/// Relies on sha2::Sha256 (RustCrypto): the 32-byte SHA-256 digest of the
/// UTF-8 bytes of `s`; the digest depends on `s` alone.
#[verifier::external_body]
fn sha256_str(s: &str) -> (r: Vec<u8>)
    ensures
        r@ == sha256_of(s@),
        r@.len() == 32,
{
    let mut hasher = <sha2::Sha256 as sha2::Digest>::new();
    sha2::Digest::update(&mut hasher, s.as_bytes());
    sha2::Digest::finalize(hasher).to_vec()
}

/// Relies on hex::encode: two lowercase hex digits per byte, high nibble
/// first, in byte order.
#[verifier::external_body]
fn hex_encode(b: &Vec<u8>) -> (r: String)
    ensures
        r@ == hex_of(b@),
{
    hex::encode(b)
}

/// The version hash of a specific edit: the first 16 bytes of the SHA-256
/// digest of the diff, so that equal diffs name the same version.
#[derive(Debug)]
pub struct EditVersion {
    bytes: Vec<u8>,
}

impl View for EditVersion {
    type V = Seq<u8>;

    closed spec fn view(&self) -> Seq<u8> {
        self.bytes@
    }
}

impl EditVersion {
    /// A version always holds exactly 16 bytes.
    #[verifier::type_invariant]
    pub closed spec fn inv(self) -> bool {
        self.bytes@.len() == 16
    }

    /// The version that identifies `diff`.
    pub fn new(diff: &str) -> (v: EditVersion)
        ensures
            v@ == version_bytes_of(diff@),
            v@.len() == 16,
    {
        let digest = sha256_str(diff);
        let mut bytes: Vec<u8> = Vec::new();
        let mut i: usize = 0;
        while i < 16
            invariant
                i <= 16,
                digest@.len() == 32,
                digest@ == sha256_of(diff@),
                bytes@.len() == i,
                forall|j: int| 0 <= j < i ==> bytes@[j] == digest@[j],
            decreases 16 - i,
        {
            let b = digest[i];
            bytes.push(b);
            i += 1;
        }
        proof {
            assert(bytes@ =~= version_bytes_of(diff@));
        }
        EditVersion { bytes }
    }

    /// Lowercase hex rendering of all 16 bytes: 32 hex digits.
    pub fn hash(&self) -> (s: String)
        ensures
            s@ == hex_of(self@),
            s@.len() == 32,
            forall|i: int| 0 <= i < s@.len() ==> is_hex_char(#[trigger] s@[i]),
    {
        proof {
            use_type_invariant(self);
            lemma_hex_of_props(self@);
        }
        hex_encode(&self.bytes)
    }
}

impl Default for EditVersion {
    /// The version of the empty diff.
    fn default() -> (v: EditVersion)
        ensures
            v@ == default_version_bytes(),
            v@.len() == 16,
    {
        proof {
            reveal_strlit("");
            assert(""@ =~= Seq::<char>::empty());
        }
        EditVersion::new("")
    }
}

impl Clone for EditVersion {
    fn clone(&self) -> (v: EditVersion)
        ensures
            v@ == self@,
    {
        proof {
            use_type_invariant(self);
        }
        let bytes = self.bytes.clone();
        proof {
            assert(bytes@ =~= self.bytes@);
        }
        EditVersion { bytes }
    }
}

impl PartialEq for EditVersion {
    fn eq(&self, other: &EditVersion) -> (r: bool) {
        let r = self.bytes == other.bytes;
        proof {
            if r {
                assert(self.bytes@ =~= other.bytes@);
            }
        }
        r
    }
}

impl vstd::std_specs::cmp::PartialEqSpecImpl for EditVersion {
    open spec fn obeys_eq_spec() -> bool {
        true
    }

    open spec fn eq_spec(&self, other: &EditVersion) -> bool {
        self@ == other@
    }
}

} // verus!
