//! Credential service: opaque bearer tokens of 128 characters over the
//! alphanumeric alphabet, drawn from a cryptographically sufficient
//! random source, and the capability tags a credential carries.
//! Uniqueness of tokens is probabilistic (birthday bound at this length
//! and alphabet), never checked or guaranteed.

use vstd::prelude::*;
use vstd::string::StringExecFns;

use crate::error::ApiError;

verus! {

/// True of the ASCII alphanumeric characters: the token alphabet.
pub open spec fn is_key_char(c: char) -> bool {
    (48 <= c as u32 && c as u32 <= 57) || (65 <= c as u32 && c as u32 <= 90) || (97 <= c as u32
        && c as u32 <= 122)
}

/// A well-formed bearer token: exactly 128 characters, all of them
/// from the alphanumeric alphabet.
pub open spec fn valid_key(s: Seq<char>) -> bool {
    s.len() == 128 && (forall|i: int| 0 <= i < s.len() ==> is_key_char(#[trigger] s[i]))
}

/// An opaque bearer token. Issued once, returned to the caller exactly
/// once, and presented on later requests in the `X-Api-Key` header;
/// never mutated after issuance.
#[derive(Clone, Debug)]
pub struct ApiKey(String);

impl View for ApiKey {
    type V = Seq<char>;

    closed spec fn view(&self) -> Seq<char> {
        self.0@
    }
}

impl ApiKey {
    /// The token's characters, for presentation on the wire.
    pub fn as_str(&self) -> (s: &str)
        ensures
            s@ == self@,
    {
        self.0.as_str()
    }
}

/// Relies on rand's `Alphanumeric` distribution: every sample is one of
/// the 62 bytes `A`-`Z`, `a`-`z`, `0`-`9`, here widened to the char of
/// the same scalar value.
#[verifier::external_body]
fn sample_alphanumeric_char() -> (c: char)
    ensures
        is_key_char(c),
{
    char::from(rand::Rng::sample(&mut rand::thread_rng(), rand::distributions::Alphanumeric))
}

/// Relies on `String::push`: appends exactly the given character at the
/// end of the string.
#[verifier::external_body]
fn push_char(s: &mut String, c: char)
    ensures
        final(s)@ == old(s)@.push(c),
{
    s.push(c);
}

/// Issues and verifies credentials.
pub struct KeysService;

impl KeysService {
    /// Issues a fresh token: 128 characters drawn independently from
    /// the alphanumeric alphabet.
    pub fn create_new_key() -> (key: ApiKey)
        ensures
            valid_key(key@),
    {
        let mut token = String::new();
        let mut i: usize = 0;
        while i < 128
            invariant
                i <= 128,
                token@.len() == i,
                forall|j: int| 0 <= j < token@.len() ==> is_key_char(#[trigger] token@[j]),
            decreases 128 - i,
        {
            let c = sample_alphanumeric_char();
            push_char(&mut token, c);
            i = i + 1;
        }
        ApiKey(token)
    }
}

/// The wire-boundary rule for credentials: a caller presents the token
/// in the `X-Api-Key` request header. An absent header is the caller's
/// error (400), never a silently tolerated anonymous request.
pub fn api_key_from_header(header: Option<String>) -> (r: Result<ApiKey, ApiError>)
    ensures
        header matches Some(h) ==> (r matches Ok(k) && k@ == h@),
        header is None ==> (r matches Err(e) && e.is_client_error() && e.spec_status_code()
            == 400),
{
    match header {
        Some(h) => Ok(ApiKey(h)),
        None => Err(ApiError::message(400, "Expected X-Api-Key header to be present.")),
    }
}

/// Capability tags carried by a credential: a small set of named
/// permission bits, extensible without renumbering existing bits.
#[derive(Clone, Copy, PartialEq, Eq, Structural, Debug)]
pub struct KeyTags {
    bits: i32,
}

impl KeyTags {
    /// The raw bit pattern, as the persistence store records it.
    pub closed spec fn spec_bits(&self) -> i32 {
        self.bits
    }

    /// True when every capability of `other` is granted by `self`.
    pub open spec fn spec_contains(&self, other: KeyTags) -> bool {
        self.spec_bits() & other.spec_bits() == other.spec_bits()
    }

    /// No capabilities at all.
    pub fn empty() -> (r: KeyTags)
        ensures
            r.spec_bits() == 0,
    {
        KeyTags { bits: 0 }
    }

    /// The administrative capability, granted to the first account's
    /// credential at bootstrap.
    pub fn admin() -> (r: KeyTags)
        ensures
            r.spec_bits() == 1,
    {
        KeyTags { bits: 1 }
    }

    /// The raw bit pattern.
    pub fn bits(&self) -> (b: i32)
        ensures
            b == self.spec_bits(),
    {
        self.bits
    }

    /// Rebuilds tags from a recorded bit pattern.
    pub fn from_bits(bits: i32) -> (r: KeyTags)
        ensures
            r.spec_bits() == bits,
    {
        KeyTags { bits }
    }

    /// The tags granting whatever either operand grants.
    pub fn union(&self, other: KeyTags) -> (r: KeyTags)
        ensures
            r.spec_bits() == self.spec_bits() | other.spec_bits(),
    {
        KeyTags { bits: self.bits | other.bits }
    }

    /// Whether every capability of `other` is granted by `self`.
    pub fn contains(&self, other: KeyTags) -> (b: bool)
        ensures
            b == self.spec_contains(other),
    {
        (self.bits & other.bits) == other.bits
    }
}

} // verus!
