use vstd::prelude::*;
use vstd::string::StrSliceExecFns;
use vstd::string::StringExecFns;

verus! {

/// Why building an authenticated session failed.
#[derive(Clone, Copy, Debug, PartialEq, Eq, Structural)]
pub enum AuthError {
    /// The secret key text is not a well-formed key encoding.
    InvalidKey,
    /// The remote endpoint rejected the session handshake.
    SessionInitFailed,
}

/// The remote endpoint's answer to the one handshake a session build performs.
#[derive(Clone, Copy, Debug, PartialEq, Eq, Structural)]
pub enum HandshakeOutcome {
    Accepted,
    Rejected,
}

/// Seed of the identity digest: the accumulator before any key character is folded in.
pub const IDENTITY_SEED: u64 = 5381;

/// A decimal digit, the part of a key encoding that carries the key slot.
pub open spec fn is_key_digit(c: char) -> bool {
    '0' as u32 <= c as u32 && c as u32 <= '9' as u32
}

/// Characters a key encoding may consist of: ASCII letters, digits and `-`.
pub open spec fn is_key_char(c: char) -> bool {
    ||| 'a' as u32 <= c as u32 && c as u32 <= 'z' as u32
    ||| 'A' as u32 <= c as u32 && c as u32 <= 'Z' as u32
    ||| is_key_digit(c)
    ||| c == '-'
}

/// A well-formed secret-key encoding: non-empty, every character drawn from the
/// key alphabet, and at least one digit (the numeric key-slot component).
pub open spec fn is_valid_key(s: Seq<char>) -> bool {
    &&& s.len() > 0
    &&& forall|i: int| 0 <= i < s.len() ==> is_key_char(#[trigger] s[i])
    &&& exists|i: int| 0 <= i < s.len() && is_key_digit(#[trigger] s[i])
}

/// One step of the identity digest: fold a character into the accumulator,
/// wrapping modulo 2^64.
pub open spec fn identity_step(acc: u64, c: char) -> u64 {
    ((acc * 31 + c as u32) % 0x1_0000_0000_0000_0000) as u64
}

/// The digest of the first `n` characters of `s`.
pub open spec fn identity_prefix(s: Seq<char>, n: int) -> u64
    decreases n,
{
    if n <= 0 {
        IDENTITY_SEED
    } else {
        identity_step(identity_prefix(s, n - 1), s[n - 1])
    }
}

/// The public identity derived from a secret key: a digest of the whole key
/// text. Deterministic and pure — it depends on the key characters alone.
pub open spec fn derived_identity(s: Seq<char>) -> u64 {
    identity_prefix(s, s.len() as int)
}

/// Checks a secret-key encoding against the key alphabet.
pub fn validate_key(key: &str) -> (valid: bool)
    ensures
        valid == is_valid_key(key@),
{
    let len = key.unicode_len();
    let mut saw_digit = false;
    let mut i: usize = 0;
    while i < len
        invariant
            len == key@.len(),
            0 <= i <= len,
            forall|j: int| 0 <= j < i ==> is_key_char(#[trigger] key@[j]),
            saw_digit == exists|j: int| 0 <= j < i && is_key_digit(#[trigger] key@[j]),
        decreases len - i,
    {
        let c = key.get_char(i);
        let v = c as u32;
        let lower = 'a' as u32 <= v && v <= 'z' as u32;
        let upper = 'A' as u32 <= v && v <= 'Z' as u32;
        let digit = '0' as u32 <= v && v <= '9' as u32;
        if !(lower || upper || digit || c == '-') {
            return false;
        }
        saw_digit = saw_digit || digit;
        i += 1;
    }
    len > 0 && saw_digit
}

/// Computes the derived identity of a key text.
pub fn derive_identity(key: &str) -> (id: u64)
    ensures
        id == derived_identity(key@),
{
    let len = key.unicode_len();
    let mut acc: u64 = IDENTITY_SEED;
    let mut i: usize = 0;
    while i < len
        invariant
            len == key@.len(),
            0 <= i <= len,
            acc == identity_prefix(key@, i as int),
        decreases len - i,
    {
        let c = key.get_char(i);
        let wide: u128 = (acc as u128) * 31 + (c as u32) as u128;
        acc = (wide % 0x1_0000_0000_0000_0000u128) as u64;
        i += 1;
    }
    acc
}

/// An authenticated handle to the remote network, valid for one publish call.
#[derive(Debug)]
pub struct AccountSession {
    /// The public identity derived from the secret key.
    pub identity: u64,
    /// The endpoint the session was established against.
    pub network_endpoint: String,
}

/// A session build that has derived its identity and still owes the endpoint
/// its one handshake. Holding a value of this type is the only way to reach
/// the network: an invalid key never produces one, so it never causes a call.
#[derive(Debug)]
pub struct SessionHandshake {
    /// The identity the handshake will present.
    pub identity: u64,
    /// The endpoint the handshake is addressed to.
    pub network_endpoint: String,
}

/// First half of `AccountSession` building: validate the key encoding and
/// derive the identity. Returns the handshake still owed to the endpoint, or
/// `AuthError::InvalidKey` — in which case no network interaction happens at
/// all, since no `SessionHandshake` comes into existence.
pub fn build_session(secret_key: &str, network_endpoint: &str) -> (r: Result<
    SessionHandshake,
    AuthError,
>)
    ensures
        r is Ok <==> is_valid_key(secret_key@),
        !is_valid_key(secret_key@) ==> r == Result::<SessionHandshake, AuthError>::Err(
            AuthError::InvalidKey,
        ),
        r matches Ok(h) ==> h.identity == derived_identity(secret_key@)
            && h.network_endpoint@ == network_endpoint@,
{
    if validate_key(secret_key) {
        Ok(
            SessionHandshake {
                identity: derive_identity(secret_key),
                network_endpoint: String::from_str(network_endpoint),
            },
        )
    } else {
        Err(AuthError::InvalidKey)
    }
}

/// Second half of `AccountSession` building: fold in the endpoint's answer to
/// the handshake. Acceptance yields the session; rejection is
/// `AuthError::SessionInitFailed`.
pub fn complete_session(handshake: SessionHandshake, outcome: HandshakeOutcome) -> (r: Result<
    AccountSession,
    AuthError,
>)
    ensures
        outcome is Accepted ==> (r matches Ok(s) && s.identity == handshake.identity
            && s.network_endpoint@ == handshake.network_endpoint@),
        outcome is Rejected ==> r == Result::<AccountSession, AuthError>::Err(
            AuthError::SessionInitFailed,
        ),
{
    match outcome {
        HandshakeOutcome::Accepted => Ok(
            AccountSession {
                identity: handshake.identity,
                network_endpoint: handshake.network_endpoint,
            },
        ),
        HandshakeOutcome::Rejected => Err(AuthError::SessionInitFailed),
    }
}

/// Law: session building is deterministic. Two identities both derived from
/// the same secret key are the same identity, so two `build_session` calls
/// with equal keys yield sessions presenting equal identities.
pub proof fn lemma_build_deterministic(key: Seq<char>, id1: u64, id2: u64)
    requires
        id1 == derived_identity(key),
        id2 == derived_identity(key),
    ensures
        id1 == id2,
{
}

} // verus!
