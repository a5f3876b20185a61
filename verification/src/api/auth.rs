//! The API-key check that guards `/api/light`: every request carries the
//! pre-shared key in the `X-Api-Key` header.

use vstd::prelude::*;
use vstd::string::StringSliceAdditionalSpecFns;

verus! {

/// Proof that a request carried the right API key.
#[derive(Debug, Clone, Copy, PartialEq, Eq, Structural)]
pub struct AuthGuard;

/// Why a request was refused.
#[derive(Debug, Clone, Copy, PartialEq, Eq, Structural)]
pub enum AuthError {
    /// The request has no `X-Api-Key` header.
    MissingKey,
    /// The header is not visible ASCII, or does not match the key.
    InvalidKey,
}

/// A byte that an HTTP header value may hold when read as text: visible
/// ASCII or a tab.
pub open spec fn is_visible_ascii(b: u8) -> bool {
    (32 <= b && b < 127) || b == 9
}

/// Whether a header value can be read as text.
pub open spec fn header_is_text(value: Seq<u8>) -> bool {
    forall|i: int| 0 <= i < value.len() ==> is_visible_ascii(#[trigger] value[i])
}

/// The verdict on a request whose `X-Api-Key` header holds `header` (or
/// that has none), for the pre-shared key with the UTF-8 bytes `psk`.
pub open spec fn spec_authorize(header: Option<Seq<u8>>, psk: Seq<u8>) -> Result<
    AuthGuard,
    AuthError,
> {
    match header {
        None => Err(AuthError::MissingKey),
        Some(value) => if header_is_text(value) && value == psk {
            Ok(AuthGuard)
        } else {
            Err(AuthError::InvalidKey)
        },
    }
}

impl AuthError {
    /// The HTTP status of the refusal: 401 Unauthorized.
    pub fn status_code(&self) -> (code: u16)
        ensures
            code == 401,
    {
        401
    }

    /// The message of the refusal's JSON body.
    pub fn message(&self) -> (m: String)
        ensures
            m@ == match self {
                AuthError::MissingKey => "missing header: X-Api-Key"@,
                AuthError::InvalidKey => "invalid API key"@,
            },
    {
        match self {
            AuthError::MissingKey => String::from_str("missing header: X-Api-Key"),
            AuthError::InvalidKey => String::from_str("invalid API key"),
        }
    }
}

/// Whether every byte of `value` is visible ASCII or a tab.
fn is_text(value: &[u8]) -> (ok: bool)
    ensures
        ok == header_is_text(value@),
{
    let mut i: usize = 0;
    while i < value.len()
        invariant
            i <= value@.len(),
            forall|j: int| 0 <= j < i ==> is_visible_ascii(#[trigger] value@[j]),
        decreases value@.len() - i,
    {
        let b = value[i];
        if !((32 <= b && b < 127) || b == 9) {
            assert(!is_visible_ascii(value@[i as int]));
            return false;
        }
        i = i + 1;
    }
    true
}

/// Whether two byte strings are equal.
fn bytes_equal(a: &[u8], b: &[u8]) -> (eq: bool)
    ensures
        eq == (a@ == b@),
{
    if a.len() != b.len() {
        return false;
    }
    let mut i: usize = 0;
    while i < a.len()
        invariant
            i <= a@.len(),
            a@.len() == b@.len(),
            forall|j: int| 0 <= j < i ==> a@[j] == b@[j],
        decreases a@.len() - i,
    {
        if a[i] != b[i] {
            return false;
        }
        i = i + 1;
    }
    assert(a@ =~= b@);
    true
}

impl AuthGuard {
    /// Checks the value of the `X-Api-Key` header (`None` when the header is
    /// absent) against the pre-shared key `psk`. A value that is not text
    /// (visible ASCII or tabs) is refused like a wrong key.
    pub fn authorize(header: Option<&[u8]>, psk: &str) -> (res: Result<AuthGuard, AuthError>)
        ensures
            res == spec_authorize(
                match header {
                    Some(value) => Some(value@),
                    None => None,
                },
                psk.spec_bytes(),
            ),
    {
        match header {
            None => Err(AuthError::MissingKey),
            Some(value) => {
                if !is_text(value) {
                    proof {
                        lemma_text_keys(value@);
                    }
                    return Err(AuthError::InvalidKey);
                }
                if !bytes_equal(value, psk.as_bytes()) {
                    return Err(AuthError::InvalidKey);
                }
                proof {
                    lemma_text_keys(value@);
                }
                Ok(AuthGuard)
            },
        }
    }
}

/// A key whose bytes are all visible ASCII (32..=126) or tabs is let
/// through when a request carries it; a key with any other byte never is,
/// and no request with a header other than the key is.
pub proof fn lemma_text_keys(psk: Seq<u8>)
    ensures
        (forall|i: int| 0 <= i < psk.len() ==> (32 <= #[trigger] psk[i] <= 126 || psk[i] == 9))
            ==> spec_authorize(Some(psk), psk) == Ok::<AuthGuard, AuthError>(AuthGuard),
        (exists|i: int| 0 <= i < psk.len() && !(32 <= #[trigger] psk[i] <= 126 || psk[i] == 9))
            ==> forall|header: Seq<u8>|
            spec_authorize(Some(header), psk) == Err::<AuthGuard, AuthError>(
                AuthError::InvalidKey,
            ),
        forall|header: Seq<u8>|
            header != psk ==> spec_authorize(Some(header), psk) == Err::<AuthGuard, AuthError>(
                AuthError::InvalidKey,
            ),
{
    if exists|i: int| 0 <= i < psk.len() && !(32 <= #[trigger] psk[i] <= 126 || psk[i] == 9) {
        let k = choose|i: int| 0 <= i < psk.len() && !(32 <= #[trigger] psk[i] <= 126 || psk[i]
            == 9);
        assert(!is_visible_ascii(psk[k]));
    }
}

/// Every refusal is answered with 401, and only the exact key, as text, is
/// let through.
pub proof fn lemma_only_the_key_passes(header: Option<Seq<u8>>, psk: Seq<u8>)
    ensures
        spec_authorize(header, psk) is Ok <==> (header == Some(psk) && header_is_text(psk)),
        header is None ==> spec_authorize(header, psk) == Err::<AuthGuard, AuthError>(
            AuthError::MissingKey,
        ),
{
}

} // verus!
