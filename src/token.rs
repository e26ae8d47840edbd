use vstd::prelude::*;
use vstd::utf8::encode_utf8;

use crate::encode::{base64url, base64url_of, json_quote, json_quoted, url_safe_char, url_safe_text};

verus! {

#[verifier::external_type_specification]
#[verifier::external_body]
pub struct ExErrorStack(openssl::error::ErrorStack);

/// The RSASSA-PKCS1-v1_5 SHA-256 signature of `message` under the RSA
/// private key that the PEM text `pem` holds.
pub uninterp spec fn rs256_signature(pem: Seq<char>, message: Seq<u8>) -> Seq<u8>;

/// The longest PEM text, in bytes, that openssl takes in one memory buffer
/// (`c_int::MAX`).
pub const MAX_PEM_LEN: usize = 0x7fff_ffff;

/// Relies on openssl's Rsa::private_key_from_pem_passphrase (given an empty
/// passphrase, so that an encrypted key is refused rather than asked for),
/// PKey::from_rsa and a SHA-256 Signer: the signature of `message` under the
/// key in `pem`, or the error that reading the key or signing met. The memory
/// buffer that the key is read from panics beyond `c_int::MAX` bytes.
#[verifier::external_body]
fn sign_rs256(pem: &str, message: &[u8]) -> (r: Result<Vec<u8>, openssl::error::ErrorStack>)
    requires
        encode_utf8(pem@).len() <= MAX_PEM_LEN,
    ensures
        r is Ok ==> r->Ok_0@ == rs256_signature(pem@, message@),
{
    let rsa = openssl::rsa::Rsa::private_key_from_pem_passphrase(pem.as_bytes(), b"")?;
    let key = openssl::pkey::PKey::from_rsa(rsa)?;
    let mut signer = openssl::sign::Signer::new(openssl::hash::MessageDigest::sha256(), &key)?;
    signer.update(message)?;
    signer.sign_to_vec()
}

/// One value of a property of a stored entity.
#[derive(Clone, Debug)]
pub enum Pointer {
    /// A reference to another entity.
    Id(String),
    /// A literal whose JSON value is a string.
    Text(String),
    /// Any other literal or list.
    Other,
}

/// The entity that a property refers to, when its only value is a reference.
pub open spec fn sole_reference(values: Seq<Pointer>) -> Option<Seq<char>> {
    if values.len() == 1 && values[0] is Id {
        Some(values[0]->Id_0@)
    } else {
        None
    }
}

/// The text of a property whose only value is a string literal.
pub open spec fn sole_text(values: Seq<Pointer>) -> Option<Seq<char>> {
    if values.len() == 1 && values[0] is Text {
        Some(values[0]->Text_0@)
    } else {
        None
    }
}

/// The entity that `values` refers to, if they are exactly one reference.
pub fn key_reference(values: &Vec<Pointer>) -> (r: Option<String>)
    ensures
        r matches Some(s) ==> sole_reference(values@) == Some(s@),
        r is None ==> sole_reference(values@) is None,
{
    if values.len() == 1 {
        match &values[0] {
            Pointer::Id(id) => Some(id.clone()),
            _ => None,
        }
    } else {
        None
    }
}

/// The text that `values` hold, if they are exactly one string literal.
pub fn private_key_text(values: &Vec<Pointer>) -> (r: Option<String>)
    ensures
        r matches Some(s) ==> sole_text(values@) == Some(s@),
        r is None ==> sole_text(values@) is None,
{
    if values.len() == 1 {
        match &values[0] {
            Pointer::Text(t) => Some(t.clone()),
            _ => None,
        }
    } else {
        None
    }
}

/// The token header, given the key id already quoted as a JSON string.
pub open spec fn header_of(quoted_key_id: Seq<char>) -> Seq<char> {
    "{\"alg\":\"RS256\",\"kid\":"@ + quoted_key_id + ",\"typ\":\"JWT\"}"@
}

/// The token claims, given the actor id already quoted as a JSON string:
/// issued by the tool, for the actor, expiring at the largest 32-bit time.
pub open spec fn claims_of(quoted_actor_id: Seq<char>) -> Seq<char> {
    "{\"exp\":4294967295,\"iss\":\"kroeg-call\",\"sub\":"@ + quoted_actor_id + "}"@
}

/// The base64url text of the UTF-8 bytes of `s`.
pub open spec fn segment_of(s: Seq<char>) -> Seq<char> {
    base64url_of(encode_utf8(s))
}

/// The signed part of a token: the header and the claims, each encoded,
/// joined by a dot.
pub open spec fn signing_input_of(quoted_key_id: Seq<char>, quoted_actor_id: Seq<char>) -> Seq<
    char,
> {
    segment_of(header_of(quoted_key_id)) + "."@ + segment_of(claims_of(quoted_actor_id))
}

/// A whole token: the signed part, a dot, and the encoded signature.
pub open spec fn token_of(signing_input: Seq<char>, signature: Seq<u8>) -> Seq<char> {
    signing_input + "."@ + base64url_of(signature)
}

/// The token that the key in `pem` signs for the actor.
pub open spec fn signed_token(key_id: Seq<char>, actor_id: Seq<char>, pem: Seq<char>) -> Seq<char> {
    let input = signing_input_of(json_quoted(key_id), json_quoted(actor_id));
    token_of(input, rs256_signature(pem, encode_utf8(input)))
}

/// Three URL-safe segments joined by dots.
pub open spec fn token_shaped(t: Seq<char>) -> bool {
    exists|a: Seq<char>, b: Seq<char>, c: Seq<char>|
        url_safe_text(a) && url_safe_text(b) && url_safe_text(c) && t == a + "."@ + b + "."@ + c
}

/// A token holds exactly two dots, the ones between its segments, so it
/// splits into its header, its claims and its signature.
pub proof fn lemma_token_segments(a: Seq<char>, b: Seq<char>, c: Seq<char>)
    requires
        url_safe_text(a),
        url_safe_text(b),
        url_safe_text(c),
    ensures
        forall|k: int|
            0 <= k < (a + "."@ + b + "."@ + c).len() ==> (#[trigger] (a + "."@ + b + "."@ + c)[k]
                == '.' <==> (k == a.len() || k == a.len() + 1 + b.len())),
{
    reveal_strlit(".");
    let t = a + "."@ + b + "."@ + c;
    assert forall|k: int| 0 <= k < t.len() implies (t[k] == '.' <==> (k == a.len() || k
        == a.len() + 1 + b.len())) by {
        if k < a.len() {
            assert(t[k] == a[k]);
            assert(url_safe_char(a[k]));
        } else if k == a.len() {
        } else if k < a.len() + 1 + b.len() {
            assert(t[k] == b[k - a.len() - 1]);
            assert(url_safe_char(b[k - a.len() - 1]));
        } else if k == a.len() + 1 + b.len() {
        } else {
            assert(t[k] == c[k - a.len() - 2 - b.len()]);
            assert(url_safe_char(c[k - a.len() - 2 - b.len()]));
        }
    }
}

/// Builds the signed part of a token from the key id and the actor id, each
/// already quoted as a JSON string.
pub fn signing_input(quoted_key_id: &str, quoted_actor_id: &str) -> (r: String)
    ensures
        r@ == signing_input_of(quoted_key_id@, quoted_actor_id@),
        url_safe_text(segment_of(header_of(quoted_key_id@))),
        url_safe_text(segment_of(claims_of(quoted_actor_id@))),
{
    let mut header = String::from_str("{\"alg\":\"RS256\",\"kid\":");
    header.append(quoted_key_id);
    header.append(",\"typ\":\"JWT\"}");
    let mut claims = String::from_str("{\"exp\":4294967295,\"iss\":\"kroeg-call\",\"sub\":");
    claims.append(quoted_actor_id);
    claims.append("}");
    let mut r = base64url(header.as_str().as_bytes());
    r.append(".");
    let tail = base64url(claims.as_str().as_bytes());
    r.append(tail.as_str());
    r
}

/// Joins the signed part of a token and its signature.
pub fn assemble_token(signing_input: &str, signature: &[u8]) -> (r: String)
    ensures
        r@ == token_of(signing_input@, signature@),
        url_safe_text(base64url_of(signature@)),
{
    let mut r = String::from_str(signing_input);
    r.append(".");
    let sig = base64url(signature);
    r.append(sig.as_str());
    r
}

/// Why a token could not be made.
#[derive(Clone, Copy, Debug, PartialEq, Eq, Structural)]
pub enum TokenError {
    /// The private key could not be read, or could not sign.
    InvalidKey,
}

/// Whether the PEM text `pem` is short enough to be read at all.
pub open spec fn pem_fits(pem: Seq<char>) -> bool {
    encode_utf8(pem).len() <= MAX_PEM_LEN
}

/// Signs a token for `actor_id` with the PEM private key `pem`, whose public
/// half is the entity `key_id`.
pub fn sign_token(actor_id: &str, key_id: &str, pem: &str) -> (r: Result<String, TokenError>)
    ensures
        !pem_fits(pem@) ==> r == Err::<String, TokenError>(TokenError::InvalidKey),
        r matches Ok(t) ==> t@ == signed_token(key_id@, actor_id@, pem@) && token_shaped(t@),
        r is Err ==> r == Err::<String, TokenError>(TokenError::InvalidKey),
{
    if pem.as_bytes().len() > MAX_PEM_LEN {
        return Err(TokenError::InvalidKey);
    }
    let kid = match json_quote(key_id) {
        Ok(q) => q,
        Err(_) => String::new(),
    };
    let sub = match json_quote(actor_id) {
        Ok(q) => q,
        Err(_) => String::new(),
    };
    let input = signing_input(kid.as_str(), sub.as_str());
    match sign_rs256(pem, input.as_str().as_bytes()) {
        Ok(sig) => {
            let t = assemble_token(input.as_str(), sig.as_slice());
            proof {
                let a = segment_of(header_of(kid@));
                let b = segment_of(claims_of(sub@));
                let c = base64url_of(sig@);
                assert(t@ =~= a + "."@ + b + "."@ + c);
            }
            Ok(t)
        },
        Err(_) => Err(TokenError::InvalidKey),
    }
}

/// Key material that a token needs and the actor lacks. Reported to the
/// operator; issuing then ends without a token and without failing.
#[derive(Clone, Copy, Debug, PartialEq, Eq, Structural)]
pub enum MissingKeyMaterial {
    /// The actor's `publicKey` is not a single reference.
    NoKey,
    /// The key entity that `publicKey` names does not exist.
    KeyNotFound,
    /// The key's `privateKeyPem` is not a single string.
    NoPrivateKey,
}

pub open spec fn missing_key_text(m: MissingKeyMaterial) -> Seq<char> {
    match m {
        MissingKeyMaterial::NoKey => "Cannot create authentication for user: no key"@,
        MissingKeyMaterial::KeyNotFound => "Cannot create authentication for user: key not found"@,
        MissingKeyMaterial::NoPrivateKey => "Cannot create authentication for user: no private key"@,
    }
}

impl MissingKeyMaterial {
    /// The diagnostic line for the operator.
    pub fn message(&self) -> (r: String)
        ensures
            r@ == missing_key_text(*self),
    {
        match self {
            MissingKeyMaterial::NoKey => String::from_str(
                "Cannot create authentication for user: no key",
            ),
            MissingKeyMaterial::KeyNotFound => String::from_str(
                "Cannot create authentication for user: key not found",
            ),
            MissingKeyMaterial::NoPrivateKey => String::from_str(
                "Cannot create authentication for user: no private key",
            ),
        }
    }
}

/// How issuing a token goes on once the actor has been loaded.
#[derive(Clone, Debug)]
pub enum TokenStep {
    /// Load the key entity with this id, then call [`after_key`].
    LoadKey(String),
    /// Report the missing material and finish.
    Missing(MissingKeyMaterial),
}

/// What issuing a token ends with, short of an error.
#[derive(Clone, Debug)]
pub enum TokenOutcome {
    /// The token line to print.
    Token(String),
    /// Report the missing material and finish.
    Missing(MissingKeyMaterial),
}

/// Decides, from the values of the actor's `publicKey`, which key entity to
/// load.
pub fn after_actor(public_key: &Vec<Pointer>) -> (r: TokenStep)
    ensures
        sole_reference(public_key@) matches Some(k) ==> (r matches TokenStep::LoadKey(id) && id@
            == k),
        sole_reference(public_key@) is None ==> r matches TokenStep::Missing(
            MissingKeyMaterial::NoKey,
        ),
{
    match key_reference(public_key) {
        Some(id) => TokenStep::LoadKey(id),
        None => TokenStep::Missing(MissingKeyMaterial::NoKey),
    }
}

/// Finishes issuing a token for `actor_id`, from the values of the
/// `privateKeyPem` of the key entity `key_id`.
pub fn after_key(actor_id: &str, key_id: &str, private_key: &Vec<Pointer>) -> (r: Result<
    TokenOutcome,
    TokenError,
>)
    ensures
        sole_text(private_key@) is None ==> r matches Ok(
            TokenOutcome::Missing(MissingKeyMaterial::NoPrivateKey),
        ),
        sole_text(private_key@) matches Some(pem) ==> match r {
            Ok(TokenOutcome::Token(t)) => pem_fits(pem) && t@ == signed_token(
                key_id@,
                actor_id@,
                pem,
            ),
            Ok(TokenOutcome::Missing(_)) => false,
            Err(e) => e == TokenError::InvalidKey,
        },
{
    match private_key_text(private_key) {
        None => Ok(TokenOutcome::Missing(MissingKeyMaterial::NoPrivateKey)),
        Some(pem) => match sign_token(actor_id, key_id, pem.as_str()) {
            Ok(t) => Ok(TokenOutcome::Token(t)),
            Err(e) => Err(e),
        },
    }
}

} // verus!
