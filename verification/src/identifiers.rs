//! Validated value types for the identifiers and signatures that the mapping
//! registry protocol speaks of: legacy DIDs and verification keys, new-ledger
//! DIDs, resource identifiers, ledger account addresses, the attached legacy
//! Ed25519 signature, and the recoverable ledger-account signature.
//!
//! Each constructor parses a raw string or byte buffer against the type's
//! format grammar and either returns a fully built value or fails with a
//! typed error; no partially built value ever escapes.

use vstd::prelude::*;
use vstd::string::StrSliceExecFns;
use crate::errors::VdrError;

verus! {

// ---------------------------------------------------------------------------
// Character classes
// ---------------------------------------------------------------------------

/// A character of the base-58 alphabet used by the legacy ledger
/// (digits and letters without `0`, `O`, `I`, `l`).
pub open spec fn is_base58_char(c: char) -> bool {
    ('1' <= c && c <= '9') || ('A' <= c && c <= 'H') || ('J' <= c && c <= 'N') || ('P' <= c && c
        <= 'Z') || ('a' <= c && c <= 'k') || ('m' <= c && c <= 'z')
}

/// A hexadecimal digit, either case.
pub open spec fn is_hex_char(c: char) -> bool {
    ('0' <= c && c <= '9') || ('A' <= c && c <= 'F') || ('a' <= c && c <= 'f')
}

/// A printable ASCII character (no space, no control characters).
pub open spec fn is_printable_char(c: char) -> bool {
    '!' <= c && c <= '~'
}

// ---------------------------------------------------------------------------
// Format grammars
// ---------------------------------------------------------------------------

/// Legacy DID grammar: `did:sov:` followed by a 21- or 22-character
/// base-58 identifier.
pub open spec fn valid_legacy_did(s: Seq<char>) -> bool {
    &&& (s.len() == 29 || s.len() == 30)
    &&& s[0] == 'd' && s[1] == 'i' && s[2] == 'd' && s[3] == ':'
    &&& s[4] == 's' && s[5] == 'o' && s[6] == 'v' && s[7] == ':'
    &&& forall|i: int| 8 <= i < s.len() ==> is_base58_char(#[trigger] s[i])
}

/// Legacy verification key grammar: either a full key (43 or 44 base-58
/// characters) or an abbreviated key (`~` followed by 21 or 22 base-58
/// characters).
pub open spec fn valid_legacy_verkey(s: Seq<char>) -> bool {
    ||| {
        &&& (s.len() == 43 || s.len() == 44)
        &&& forall|i: int| 0 <= i < s.len() ==> is_base58_char(#[trigger] s[i])
    }
    ||| {
        &&& (s.len() == 22 || s.len() == 23)
        &&& s[0] == '~'
        &&& forall|i: int| 1 <= i < s.len() ==> is_base58_char(#[trigger] s[i])
    }
}

/// Ledger account address grammar: `0x` followed by 40 hexadecimal digits.
pub open spec fn valid_address(s: Seq<char>) -> bool {
    &&& s.len() == 42
    &&& s[0] == '0' && s[1] == 'x'
    &&& forall|i: int| 2 <= i < s.len() ==> is_hex_char(#[trigger] s[i])
}

/// New-ledger DID grammar: `did:` followed by a method name starting with a
/// lowercase letter and the rest of the identifier, all printable ASCII,
/// bounded so that encoded call data always fits a transaction.
pub open spec fn valid_did(s: Seq<char>) -> bool {
    &&& 5 <= s.len() <= 2048
    &&& s[0] == 'd' && s[1] == 'i' && s[2] == 'd' && s[3] == ':'
    &&& 'a' <= s[4] && s[4] <= 'z'
    &&& forall|i: int| 0 <= i < s.len() ==> is_printable_char(#[trigger] s[i])
}

/// Resource identifier grammar (legacy or new form): non-empty printable
/// ASCII, bounded so that encoded call data always fits a transaction.
pub open spec fn valid_resource_identifier(s: Seq<char>) -> bool {
    &&& 1 <= s.len() <= 2048
    &&& forall|i: int| 0 <= i < s.len() ==> is_printable_char(#[trigger] s[i])
}

// ---------------------------------------------------------------------------
// ASCII facts about the grammars
// ---------------------------------------------------------------------------

/// Every string matching the legacy DID grammar is ASCII, one UTF-8 byte per
/// character.
pub proof fn lemma_legacy_did_ascii(s: Seq<char>)
    requires
        valid_legacy_did(s),
    ensures
        vstd::utf8::is_ascii_chars(s),
        vstd::utf8::encode_utf8(s).len() == s.len(),
{
    assert forall|i: int| 0 <= i < s.len() implies '\0' <= #[trigger] s[i] <= '\u{7f}' by {
        if i >= 8 {
            assert(is_base58_char(s[i]));
        }
    }
    vstd::utf8::is_ascii_chars_encode_utf8(s);
}

/// Every string matching the legacy verkey grammar is ASCII, one UTF-8 byte
/// per character.
pub proof fn lemma_legacy_verkey_ascii(s: Seq<char>)
    requires
        valid_legacy_verkey(s),
    ensures
        vstd::utf8::is_ascii_chars(s),
        vstd::utf8::encode_utf8(s).len() == s.len(),
{
    assert forall|i: int| 0 <= i < s.len() implies '\0' <= #[trigger] s[i] <= '\u{7f}' by {
        if s.len() == 43 || s.len() == 44 {
            assert(is_base58_char(s[i]));
        } else if i >= 1 {
            assert(is_base58_char(s[i]));
        }
    }
    vstd::utf8::is_ascii_chars_encode_utf8(s);
}

/// Every string matching the DID grammar is ASCII, one UTF-8 byte per
/// character.
pub proof fn lemma_did_ascii(s: Seq<char>)
    requires
        valid_did(s),
    ensures
        vstd::utf8::is_ascii_chars(s),
        vstd::utf8::encode_utf8(s).len() == s.len(),
{
    assert forall|i: int| 0 <= i < s.len() implies '\0' <= #[trigger] s[i] <= '\u{7f}' by {
        assert(is_printable_char(s[i]));
    }
    vstd::utf8::is_ascii_chars_encode_utf8(s);
}

/// Every string matching the resource identifier grammar is ASCII, one UTF-8
/// byte per character.
pub proof fn lemma_resource_identifier_ascii(s: Seq<char>)
    requires
        valid_resource_identifier(s),
    ensures
        vstd::utf8::is_ascii_chars(s),
        vstd::utf8::encode_utf8(s).len() == s.len(),
{
    assert forall|i: int| 0 <= i < s.len() implies '\0' <= #[trigger] s[i] <= '\u{7f}' by {
        assert(is_printable_char(s[i]));
    }
    vstd::utf8::is_ascii_chars_encode_utf8(s);
}

/// Every string matching the address grammar is ASCII, one UTF-8 byte per
/// character.
pub proof fn lemma_address_ascii(s: Seq<char>)
    requires
        valid_address(s),
    ensures
        vstd::utf8::is_ascii_chars(s),
        vstd::utf8::encode_utf8(s).len() == s.len(),
{
    assert forall|i: int| 0 <= i < s.len() implies '\0' <= #[trigger] s[i] <= '\u{7f}' by {
        if i >= 2 {
            assert(is_hex_char(s[i]));
        }
    }
    vstd::utf8::is_ascii_chars_encode_utf8(s);
}

// ---------------------------------------------------------------------------
// Executable grammar checks
// ---------------------------------------------------------------------------

/// True exactly when every character of `s` at index `from` or later is in
/// the base-58 alphabet.
fn span_is_base58(s: &str, from: usize, n: usize) -> (r: bool)
    requires
        from <= n,
        n == s@.len(),
    ensures
        r == forall|i: int| from <= i < s@.len() ==> is_base58_char(#[trigger] s@[i]),
{
    let mut i: usize = from;
    while i < n
        invariant
            from <= i <= n,
            n == s@.len(),
            forall|j: int| from <= j < i ==> is_base58_char(#[trigger] s@[j]),
        decreases n - i,
    {
        let u = s.get_char(i) as u32;
        let ok = (0x31 <= u && u <= 0x39) || (0x41 <= u && u <= 0x48) || (0x4a <= u && u <= 0x4e)
            || (0x50 <= u && u <= 0x5a) || (0x61 <= u && u <= 0x6b) || (0x6d <= u && u <= 0x7a);
        if !ok {
            return false;
        }
        i = i + 1;
    }
    true
}

/// True exactly when every character of `s` is printable ASCII.
fn span_is_printable(s: &str, n: usize) -> (r: bool)
    requires
        n == s@.len(),
    ensures
        r == forall|i: int| 0 <= i < s@.len() ==> is_printable_char(#[trigger] s@[i]),
{
    let mut i: usize = 0;
    while i < n
        invariant
            0 <= i <= n,
            n == s@.len(),
            forall|j: int| 0 <= j < i ==> is_printable_char(#[trigger] s@[j]),
        decreases n - i,
    {
        let u = s.get_char(i) as u32;
        if !(0x21 <= u && u <= 0x7e) {
            return false;
        }
        i = i + 1;
    }
    true
}

/// True exactly when every character of `s` at index 2 or later is a
/// hexadecimal digit.
fn span_is_hex(s: &str, from: usize, n: usize) -> (r: bool)
    requires
        from <= n,
        n == s@.len(),
    ensures
        r == forall|i: int| from <= i < s@.len() ==> is_hex_char(#[trigger] s@[i]),
{
    let mut i: usize = from;
    while i < n
        invariant
            from <= i <= n,
            n == s@.len(),
            forall|j: int| from <= j < i ==> is_hex_char(#[trigger] s@[j]),
        decreases n - i,
    {
        let u = s.get_char(i) as u32;
        let ok = (0x30 <= u && u <= 0x39) || (0x41 <= u && u <= 0x46) || (0x61 <= u && u <= 0x66);
        if !ok {
            return false;
        }
        i = i + 1;
    }
    true
}

/// Decides the legacy DID grammar.
pub fn check_legacy_did(s: &str) -> (r: bool)
    ensures
        r == valid_legacy_did(s@),
{
    let n = s.unicode_len();
    if !(n == 29 || n == 30) {
        return false;
    }
    if !(s.get_char(0) == 'd' && s.get_char(1) == 'i' && s.get_char(2) == 'd' && s.get_char(3)
        == ':' && s.get_char(4) == 's' && s.get_char(5) == 'o' && s.get_char(6) == 'v'
        && s.get_char(7) == ':') {
        return false;
    }
    span_is_base58(s, 8, n)
}

/// Decides the legacy verkey grammar.
pub fn check_legacy_verkey(s: &str) -> (r: bool)
    ensures
        r == valid_legacy_verkey(s@),
{
    let n = s.unicode_len();
    if n == 43 || n == 44 {
        if span_is_base58(s, 0, n) {
            return true;
        }
    }
    if n == 22 || n == 23 {
        if s.get_char(0) == '~' {
            return span_is_base58(s, 1, n);
        }
    }
    false
}

/// Decides the account address grammar.
pub fn check_address(s: &str) -> (r: bool)
    ensures
        r == valid_address(s@),
{
    let n = s.unicode_len();
    if n != 42 {
        return false;
    }
    if !(s.get_char(0) == '0' && s.get_char(1) == 'x') {
        return false;
    }
    span_is_hex(s, 2, n)
}

/// Decides the new-ledger DID grammar.
pub fn check_did(s: &str) -> (r: bool)
    ensures
        r == valid_did(s@),
{
    let n = s.unicode_len();
    if !(5 <= n && n <= 2048) {
        return false;
    }
    if !(s.get_char(0) == 'd' && s.get_char(1) == 'i' && s.get_char(2) == 'd' && s.get_char(3)
        == ':') {
        return false;
    }
    let m = s.get_char(4) as u32;
    if !(0x61 <= m && m <= 0x7a) {
        return false;
    }
    span_is_printable(s, n)
}

/// Decides the resource identifier grammar.
pub fn check_resource_identifier(s: &str) -> (r: bool)
    ensures
        r == valid_resource_identifier(s@),
{
    let n = s.unicode_len();
    if !(1 <= n && n <= 2048) {
        return false;
    }
    span_is_printable(s, n)
}

// ---------------------------------------------------------------------------
// Value types
// ---------------------------------------------------------------------------

/// A legacy-ledger DID, validated against [`valid_legacy_did`].
#[derive(Clone, Debug)]
pub struct LegacyDid {
    value: String,
}

impl View for LegacyDid {
    type V = Seq<char>;

    closed spec fn view(&self) -> Seq<char> {
        self.value@
    }
}

impl LegacyDid {
    /// Parses a legacy DID string; fails with `InvalidIdentifierFormat` when
    /// the string does not match the legacy DID grammar.
    pub fn create(s: &str) -> (r: Result<LegacyDid, VdrError>)
        ensures
            match r {
                Ok(v) => valid_legacy_did(s@) && v@ == s@,
                Err(e) => !valid_legacy_did(s@) && e == VdrError::InvalidIdentifierFormat,
            },
    {
        if check_legacy_did(s) {
            Ok(LegacyDid { value: s.to_owned() })
        } else {
            Err(VdrError::InvalidIdentifierFormat)
        }
    }

    /// The external string form, exactly as supplied at construction.
    pub fn as_str(&self) -> (r: &str)
        ensures
            r@ == self@,
    {
        self.value.as_str()
    }
}

/// A legacy verification key, validated against [`valid_legacy_verkey`].
#[derive(Clone, Debug)]
pub struct LegacyVerkey {
    value: String,
}

impl View for LegacyVerkey {
    type V = Seq<char>;

    closed spec fn view(&self) -> Seq<char> {
        self.value@
    }
}

impl LegacyVerkey {
    /// Parses a legacy verkey string; fails with `InvalidIdentifierFormat`
    /// when the string has the wrong length or alphabet.
    pub fn create(s: &str) -> (r: Result<LegacyVerkey, VdrError>)
        ensures
            match r {
                Ok(v) => valid_legacy_verkey(s@) && v@ == s@,
                Err(e) => !valid_legacy_verkey(s@) && e == VdrError::InvalidIdentifierFormat,
            },
    {
        if check_legacy_verkey(s) {
            Ok(LegacyVerkey { value: s.to_owned() })
        } else {
            Err(VdrError::InvalidIdentifierFormat)
        }
    }

    /// The external string form, exactly as supplied at construction.
    pub fn as_str(&self) -> (r: &str)
        ensures
            r@ == self@,
    {
        self.value.as_str()
    }
}

/// A new-ledger DID, validated against [`valid_did`].
#[derive(Clone, Debug)]
pub struct Did {
    value: String,
}

impl View for Did {
    type V = Seq<char>;

    closed spec fn view(&self) -> Seq<char> {
        self.value@
    }
}

impl Did {
    /// Parses a new-ledger DID string; fails with `InvalidIdentifierFormat`
    /// when the string does not match the DID grammar.
    pub fn create(s: &str) -> (r: Result<Did, VdrError>)
        ensures
            match r {
                Ok(v) => valid_did(s@) && v@ == s@,
                Err(e) => !valid_did(s@) && e == VdrError::InvalidIdentifierFormat,
            },
    {
        if check_did(s) {
            Ok(Did { value: s.to_owned() })
        } else {
            Err(VdrError::InvalidIdentifierFormat)
        }
    }

    /// The external string form, exactly as supplied at construction.
    pub fn as_str(&self) -> (r: &str)
        ensures
            r@ == self@,
    {
        self.value.as_str()
    }
}

/// A resource identifier in legacy or new form, validated against
/// [`valid_resource_identifier`].
#[derive(Clone, Debug)]
pub struct ResourceIdentifier {
    value: String,
}

impl View for ResourceIdentifier {
    type V = Seq<char>;

    closed spec fn view(&self) -> Seq<char> {
        self.value@
    }
}

impl ResourceIdentifier {
    /// Parses a resource identifier string; fails with
    /// `InvalidIdentifierFormat` when the string is empty, too long, or not
    /// printable ASCII.
    pub fn create(s: &str) -> (r: Result<ResourceIdentifier, VdrError>)
        ensures
            match r {
                Ok(v) => valid_resource_identifier(s@) && v@ == s@,
                Err(e) => !valid_resource_identifier(s@) && e
                    == VdrError::InvalidIdentifierFormat,
            },
    {
        if check_resource_identifier(s) {
            Ok(ResourceIdentifier { value: s.to_owned() })
        } else {
            Err(VdrError::InvalidIdentifierFormat)
        }
    }

    /// The external string form, exactly as supplied at construction.
    pub fn as_str(&self) -> (r: &str)
        ensures
            r@ == self@,
    {
        self.value.as_str()
    }
}

/// A ledger account address, validated against [`valid_address`].
#[derive(Clone, Debug)]
pub struct Address {
    value: String,
}

impl View for Address {
    type V = Seq<char>;

    closed spec fn view(&self) -> Seq<char> {
        self.value@
    }
}

impl Address {
    /// Parses an account address string; fails with
    /// `InvalidIdentifierFormat` when the string is not `0x` plus 40
    /// hexadecimal digits.
    pub fn create(s: &str) -> (r: Result<Address, VdrError>)
        ensures
            match r {
                Ok(v) => valid_address(s@) && v@ == s@,
                Err(e) => !valid_address(s@) && e == VdrError::InvalidIdentifierFormat,
            },
    {
        if check_address(s) {
            Ok(Address { value: s.to_owned() })
        } else {
            Err(VdrError::InvalidIdentifierFormat)
        }
    }

    /// The external string form, exactly as supplied at construction.
    pub fn as_str(&self) -> (r: &str)
        ensures
            r@ == self@,
    {
        self.value.as_str()
    }
}

/// The attached legacy Ed25519 signature: an opaque 64-byte value proving
/// that the legacy key holder consents to the mapping.
#[derive(Clone, Debug)]
pub struct Ed25519Signature {
    value: Vec<u8>,
}

impl View for Ed25519Signature {
    type V = Seq<u8>;

    closed spec fn view(&self) -> Seq<u8> {
        self.value@
    }
}

impl Ed25519Signature {
    /// Wraps a 64-byte Ed25519 signature; fails with
    /// `InvalidSignatureLength` on any other length.
    pub fn create(bytes: &[u8]) -> (r: Result<Ed25519Signature, VdrError>)
        ensures
            match r {
                Ok(v) => bytes@.len() == 64 && v@ == bytes@,
                Err(e) => bytes@.len() != 64 && e == VdrError::InvalidSignatureLength,
            },
    {
        if bytes.len() == 64 {
            Ok(Ed25519Signature { value: vstd::slice::slice_to_vec(bytes) })
        } else {
            Err(VdrError::InvalidSignatureLength)
        }
    }

    /// The raw signature bytes.
    pub fn as_bytes(&self) -> (r: &[u8])
        ensures
            r@ == self@,
    {
        self.value.as_slice()
    }
}

/// A recoverable ledger-account signature over an endorsement payload:
/// recovery id `v` and the two 32-byte scalars `r` and `s`, produced
/// entirely outside this crate.
#[derive(Clone, Debug)]
pub struct SignatureData {
    recovery_id: u8,
    r_scalar: Vec<u8>,
    s_scalar: Vec<u8>,
}

impl SignatureData {
    pub closed spec fn recovery_id_spec(&self) -> u8 {
        self.recovery_id
    }

    pub closed spec fn r_spec(&self) -> Seq<u8> {
        self.r_scalar@
    }

    pub closed spec fn s_spec(&self) -> Seq<u8> {
        self.s_scalar@
    }

    /// Wraps a recoverable signature; fails with `InvalidSignatureLength`
    /// unless both scalars are exactly 32 bytes.
    pub fn create(recovery_id: u8, r_scalar: &[u8], s_scalar: &[u8]) -> (res: Result<
        SignatureData,
        VdrError,
    >)
        ensures
            match res {
                Ok(v) => r_scalar@.len() == 32 && s_scalar@.len() == 32
                    && v.recovery_id_spec() == recovery_id && v.r_spec() == r_scalar@
                    && v.s_spec() == s_scalar@,
                Err(e) => !(r_scalar@.len() == 32 && s_scalar@.len() == 32) && e
                    == VdrError::InvalidSignatureLength,
            },
    {
        if r_scalar.len() == 32 && s_scalar.len() == 32 {
            Ok(
                SignatureData {
                    recovery_id,
                    r_scalar: vstd::slice::slice_to_vec(r_scalar),
                    s_scalar: vstd::slice::slice_to_vec(s_scalar),
                },
            )
        } else {
            Err(VdrError::InvalidSignatureLength)
        }
    }

    /// The recovery id.
    pub fn recovery_id(&self) -> (r: u8)
        ensures
            r == self.recovery_id_spec(),
    {
        self.recovery_id
    }

    /// The `r` scalar bytes.
    pub fn r_bytes(&self) -> (r: &[u8])
        ensures
            r@ == self.r_spec(),
    {
        self.r_scalar.as_slice()
    }

    /// The `s` scalar bytes.
    pub fn s_bytes(&self) -> (r: &[u8])
        ensures
            r@ == self.s_spec(),
    {
        self.s_scalar.as_slice()
    }
}

} // verus!
