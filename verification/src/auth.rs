//! Authentication backends of the lockscreen: salted PIN hashes, and the
//! stub used where no system authentication exists.

use vstd::prelude::*;
use vstd::utf8::{encode_utf8, encode_utf8_decode_utf8};
use vstd::string::StringSliceAdditionalSpecFns;
use crate::text::{bytes_of, string_from_chars};
use sha2::Digest;

verus! {

/// Result of an authentication attempt
#[derive(Debug, Clone, PartialEq)]
pub enum AuthResult {
    /// Authentication succeeded
    Success,
    /// Authentication failed with a user-facing message
    Failure(String),
    /// System error (auth system unavailable)
    SystemError(String),
}

/// Cross-platform authentication interface
pub trait Authenticator {
    /// Check if the authentication system is available
    fn is_available(&self) -> bool;

    /// Attempt authentication with username and password
    fn authenticate(&self, username: &str, password: &str) -> AuthResult;

    /// Display name of the authentication system
    fn system_name(&self) -> &'static str;
}

/// Maximum PIN length
pub const MAX_PIN_LENGTH: usize = 30;

/// Minimum PIN length
pub const MIN_PIN_LENGTH: usize = 4;

/// The SHA-256 digest of a byte sequence
pub uninterp spec fn sha256_digest(data: Seq<u8>) -> Seq<u8>;

/// Calls `sha2::Sha256::digest`. The contract claims that the result is the
/// digest of the given bytes (a function of them alone) and is 32 bytes long.
#[verifier::external_body]
fn sha256(data: &[u8]) -> (d: Vec<u8>)
    ensures
        d@ == sha256_digest(data@),
        d@.len() == 32,
{
    sha2::Sha256::digest(data).to_vec()
}

/// Lower-case hexadecimal digit of a value below 16
pub open spec fn hex_digit(n: int) -> char {
    if n < 10 {
        (48 + n) as char
    } else {
        (87 + n) as char
    }
}

/// Lower-case hexadecimal rendering of bytes, two digits per byte
pub open spec fn hex_lower(bytes: Seq<u8>) -> Seq<char>
    decreases bytes.len(),
{
    if bytes.len() == 0 {
        seq![]
    } else {
        let b = bytes.last();
        hex_lower(bytes.drop_last()) + seq![hex_digit((b / 16) as int), hex_digit((b % 16) as int)]
    }
}

/// The stored form of a PIN: hex of SHA-256 over the salt's bytes followed by
/// the PIN's bytes
pub open spec fn pin_hash_of(pin: Seq<char>, salt: Seq<char>) -> Seq<char> {
    hex_lower(sha256_digest(encode_utf8(salt) + encode_utf8(pin)))
}

/// Printable ASCII other than space (0x21..=0x7E)
pub open spec fn is_ascii_graphic(c: char) -> bool {
    0x21 <= (c as u32) <= 0x7E
}

/// Error of PIN validation, if any
pub open spec fn pin_error(pin: &str) -> Option<Seq<char>> {
    if pin.spec_bytes().len() < MIN_PIN_LENGTH {
        Some("PIN must be at least 4 characters"@)
    } else if pin.spec_bytes().len() > MAX_PIN_LENGTH {
        Some("PIN must be at most 30 characters"@)
    } else if !(forall|i: int| 0 <= i < pin@.len() ==> is_ascii_graphic(#[trigger] pin@[i])) {
        Some("PIN must contain printable characters"@)
    } else {
        None
    }
}

fn hex_char(n: u8) -> (c: char)
    requires
        n < 16,
    ensures
        c == hex_digit(n as int),
{
    if n < 10 {
        (48u8 + n) as char
    } else {
        (87u8 + n) as char
    }
}

/// Lower-case hexadecimal text of bytes
fn hex_string(bytes: &Vec<u8>) -> (s: String)
    ensures
        s@ == hex_lower(bytes@),
        s@.len() == 2 * bytes@.len(),
{
    let mut out: Vec<char> = Vec::new();
    let mut k: usize = 0;
    while k < bytes.len()
        invariant
            k <= bytes@.len(),
            out@ == hex_lower(bytes@.subrange(0, k as int)),
            out@.len() == 2 * k,
        decreases bytes@.len() - k,
    {
        let b = bytes[k];
        out.push(hex_char(b / 16));
        out.push(hex_char(b % 16));
        assert(bytes@.subrange(0, k + 1).drop_last() == bytes@.subrange(0, k as int));
        k = k + 1;
    }
    assert(bytes@.subrange(0, bytes@.len() as int) == bytes@);
    string_from_chars(&out)
}

/// A random salt made from entropy the caller gathered (time, process,
/// environment): the hex of its SHA-256 digest
pub fn salt_from_entropy(entropy: &[u8]) -> (s: String)
    ensures
        s@ == hex_lower(sha256_digest(entropy@)),
        s@.len() == 64,
{
    let digest = sha256(entropy);
    hex_string(&digest)
}

/// PIN-based authenticator for systems without native authentication
pub struct PinAuthenticator {
    /// The stored hash (lower-case hex of SHA-256)
    pub pin_hash: String,
    /// The salt used for hashing
    pub salt: String,
}

impl PinAuthenticator {
    /// Create a PIN authenticator from a stored hash and its salt; both must
    /// be non-empty
    pub fn new(pin_hash: String, salt: String) -> (r: Result<Self, String>)
        ensures
            r is Ok <==> pin_hash@.len() > 0 && salt@.len() > 0,
            r matches Ok(a) ==> a.pin_hash == pin_hash && a.salt == salt,
            pin_hash@.len() == 0 ==> (r matches Err(e) && e@ == "PIN hash is required"@),
            pin_hash@.len() > 0 && salt@.len() == 0 ==> (r matches Err(e) && e@ == "Salt is required"@),
    {
        if pin_hash.as_str().is_empty() {
            return Err("PIN hash is required".to_owned());
        }
        if salt.as_str().is_empty() {
            return Err("Salt is required".to_owned());
        }
        Ok(PinAuthenticator { pin_hash, salt })
    }

    /// Hash a PIN with the given salt
    pub fn hash_pin(pin: &str, salt: &str) -> (h: String)
        ensures
            h@ == pin_hash_of(pin@, salt@),
            h@.len() == 64,
    {
        let mut data = bytes_of(salt);
        let pin_bytes = bytes_of(pin);
        let mut i: usize = 0;
        while i < pin_bytes.len()
            invariant
                i <= pin_bytes@.len(),
                pin_bytes@ == encode_utf8(pin@),
                data@ == encode_utf8(salt@) + pin_bytes@.subrange(0, i as int),
            decreases pin_bytes@.len() - i,
        {
            data.push(pin_bytes[i]);
            i = i + 1;
        }
        assert(pin_bytes@.subrange(0, pin_bytes@.len() as int) == pin_bytes@);
        let digest = sha256(data.as_slice());
        hex_string(&digest)
    }

    /// Validate a PIN: 4 to 30 bytes of printable ASCII without spaces
    pub fn validate_pin(pin: &str) -> (r: Result<(), String>)
        ensures
            r is Ok <==> pin_error(pin) is None,
            r matches Err(e) ==> pin_error(pin) == Some(e@),
    {
        let len = pin.as_bytes().len();
        if len < MIN_PIN_LENGTH {
            return Err("PIN must be at least 4 characters".to_owned());
        }
        if len > MAX_PIN_LENGTH {
            return Err("PIN must be at most 30 characters".to_owned());
        }
        let chars = crate::text::chars_of(pin);
        let mut i: usize = 0;
        while i < chars.len()
            invariant
                chars@ == pin@,
                len == pin.spec_bytes().len(),
                MIN_PIN_LENGTH <= len <= MAX_PIN_LENGTH,
                i <= chars@.len(),
                forall|j: int| 0 <= j < i ==> is_ascii_graphic(#[trigger] pin@[j]),
            decreases chars@.len() - i,
        {
            let c = chars[i];
            if !((c as u32) >= 0x21 && (c as u32) <= 0x7E) {
                assert(!is_ascii_graphic(pin@[i as int]));
                return Err("PIN must contain printable characters".to_owned());
            }
            i = i + 1;
        }
        Ok(())
    }
}

/// Result of checking a password against a PIN authenticator's stored hash
pub open spec fn pin_verdict(a: PinAuthenticator, password: Seq<char>) -> bool {
    pin_hash_of(password, a.salt@) == a.pin_hash@
}

impl Authenticator for PinAuthenticator {
    fn is_available(&self) -> (b: bool)
        ensures
            b == (self.pin_hash@.len() > 0),
    {
        !self.pin_hash.as_str().is_empty()
    }

    fn authenticate(&self, username: &str, password: &str) -> (r: AuthResult)
        ensures
            pin_verdict(*self, password@) ==> r == AuthResult::Success,
            !pin_verdict(*self, password@) ==> (r matches AuthResult::Failure(m) && m@ == "Invalid PIN"@),
    {
        let computed = Self::hash_pin(password, self.salt.as_str());
        if constant_time_compare(computed.as_str(), self.pin_hash.as_str()) {
            AuthResult::Success
        } else {
            AuthResult::Failure("Invalid PIN".to_owned())
        }
    }

    fn system_name(&self) -> (s: &'static str)
        ensures
            s@ == "PIN"@,
    {
        "PIN"
    }
}

/// Stub authenticator that is always unavailable
pub struct StubAuthenticator;

impl StubAuthenticator {
    pub fn new() -> (s: Self) {
        StubAuthenticator
    }
}

impl Authenticator for StubAuthenticator {
    fn is_available(&self) -> (b: bool)
        ensures
            !b,
    {
        false
    }

    fn authenticate(&self, username: &str, password: &str) -> (r: AuthResult)
        ensures
            r matches AuthResult::SystemError(m) && m@ == "Authentication system not available"@,
    {
        AuthResult::SystemError("Authentication system not available".to_owned())
    }

    fn system_name(&self) -> (s: &'static str)
        ensures
            s@ == "None (Disabled)"@,
    {
        "None (Disabled)"
    }
}

/// Equality of two strings whose running time depends on their length only
pub fn constant_time_compare(a: &str, b: &str) -> (r: bool)
    ensures
        r == (a@ == b@),
{
    proof {
        encode_utf8_decode_utf8(a@);
        encode_utf8_decode_utf8(b@);
    }
    let x = a.as_bytes();
    let y = b.as_bytes();
    if x.len() != y.len() {
        return false;
    }
    let mut result: u8 = 0;
    let mut i: usize = 0;
    while i < x.len()
        invariant
            x@.len() == y@.len(),
            i <= x@.len(),
            result == 0 <==> forall|j: int| 0 <= j < i ==> x@[j] == y@[j],
        decreases x@.len() - i,
    {
        let p = x[i];
        let q = y[i];
        let old_result = result;
        result = result | (p ^ q);
        assert((old_result | (p ^ q)) == 0 <==> (old_result == 0 && p == q)) by (bit_vector);
        i = i + 1;
    }
    if result == 0 {
        assert(x@ =~= y@);
    }
    result == 0
}

} // verus!
