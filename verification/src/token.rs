//! Reading the user's ID out of an OpenID token: the key that signed the
//! token is looked up among the provider's keys, the signature checked,
//! and the configured claim taken from what the token says.
use vstd::prelude::*;
use jsonwebtoken::errors::Error as TokenError;
use jsonwebtoken::{Algorithm, DecodingKey, Validation};
use serde_json::Value;
use crate::listing::opt_view;
use crate::text::same_text;

verus! {

#[verifier::external_type_specification]
#[verifier::external_body]
pub struct ExTokenError(TokenError);

/// The algorithms of the RSA family that a token's header can name.
#[derive(Debug, Clone, Copy, PartialEq, Eq, Structural)]
pub enum RsaAlgorithm {
    RS256,
    RS384,
    RS512,
    PS256,
    PS384,
    PS512,
}

/// What `jsonwebtoken::decode_header` finds in a token: `None` where the
/// header cannot be read, and otherwise the key id it names, if any, and
/// its algorithm where that is one of the RSA family.
pub uninterp spec fn header_of(token: Seq<char>) -> Option<(Option<Seq<char>>, Option<RsaAlgorithm>)>;

/// Reads the header of `token` with `jsonwebtoken::decode_header`, and gives
/// its key id and its algorithm (`None` for an algorithm outside the RSA
/// family). Both are named by `header_of`.
#[verifier::external_body]
fn token_header(token: &str) -> (r: Result<(Option<String>, Option<RsaAlgorithm>), TokenError>)
    ensures
        match r {
            Ok((kid, alg)) => header_of(token@) == Some((opt_view(kid), alg)),
            Err(_) => header_of(token@) is None,
        },
{
    match jsonwebtoken::decode_header(token) {
        Ok(h) => Ok((h.kid, match h.alg {
            Algorithm::RS256 => Some(RsaAlgorithm::RS256), Algorithm::RS384 => Some(RsaAlgorithm::RS384),
            Algorithm::RS512 => Some(RsaAlgorithm::RS512), Algorithm::PS256 => Some(RsaAlgorithm::PS256),
            Algorithm::PS384 => Some(RsaAlgorithm::PS384), Algorithm::PS512 => Some(RsaAlgorithm::PS512),
            _ => None,
        })),
        Err(e) => Err(e),
    }
}

/// What `jsonwebtoken::decode` gives for `token`, checked with the RSA key
/// of modulus `n` and exponent `e` (`DecodingKey::from_rsa_components`) by
/// `alg`, for `audience` where `check_audience` holds, and with the expiry
/// not checked: `None` where the key or the token is refused, and
/// otherwise the claims, each by its name and its text (a string claim by
/// the string itself, any other by its JSON text), in the order of the
/// claims object.
pub uninterp spec fn decoded(
    token: Seq<char>,
    n: Seq<char>,
    e: Seq<char>,
    alg: RsaAlgorithm,
    audience: Seq<char>,
    check_audience: bool,
) -> Option<Seq<(Seq<char>, Seq<char>)>>;

/// The name and text of each claim.
pub open spec fn claim_views(c: Seq<(String, String)>) -> Seq<(Seq<char>, Seq<char>)> {
    c.map_values(|p: (String, String)| (p.0@, p.1@))
}

/// Builds the RSA key of modulus `n` and exponent `e` with
/// `jsonwebtoken::DecodingKey::from_rsa_components`, checks `token` with it
/// by `jsonwebtoken::decode` under a `Validation` for `alg` whose expiry
/// and audience checks are the arguments, and gives the claims object's
/// fields, each by its name and its text (a string by the string itself,
/// anything else by its JSON text). Where the expiry is not checked, the
/// outcome is a function of the arguments and is named by `decoded`; where
/// it is, the outcome rests on the clock, and nothing is stated of it.
#[verifier::external_body]
fn decode_claims(
    token: &str,
    n: &str,
    e: &str,
    alg: RsaAlgorithm,
    audience: &str,
    check_expiry: bool,
    check_audience: bool,
) -> (r: Result<Vec<(String, String)>, TokenError>)
    ensures
        !check_expiry ==> match decoded(token@, n@, e@, alg, audience@, check_audience) {
            None => r is Err,
            Some(d) => r matches Ok(c) && claim_views(c@) == d,
        },
{
    let key = DecodingKey::from_rsa_components(n, e)?;
    let mut validation = Validation::new(match alg {
        RsaAlgorithm::RS256 => Algorithm::RS256, RsaAlgorithm::RS384 => Algorithm::RS384,
        RsaAlgorithm::RS512 => Algorithm::RS512, RsaAlgorithm::PS256 => Algorithm::PS256,
        RsaAlgorithm::PS384 => Algorithm::PS384, RsaAlgorithm::PS512 => Algorithm::PS512,
    });
    validation.set_audience(&[audience]);
    validation.validate_exp = check_expiry;
    validation.validate_aud = check_audience;
    let data = jsonwebtoken::decode::<serde_json::Map<String, Value>>(token, &key, &validation)?;
    Ok(data.claims.into_iter().map(|(k, v)| (k, match v { Value::String(s) => s, o => o.to_string() })).collect())
}

/// The text of the first claim named `name`.
pub open spec fn claim_text_of(claims: Seq<(Seq<char>, Seq<char>)>, name: Seq<char>) -> Option<Seq<char>>
    decreases claims.len(),
{
    if claims.len() == 0 {
        None
    } else if claims[0].0 == name {
        Some(claims[0].1)
    } else {
        claim_text_of(claims.drop_first(), name)
    }
}

/// A key that the provider publishes: its id, and its modulus and exponent
/// where it is an RSA key.
pub struct KeyEntry {
    pub key_id: Option<String>,
    pub rsa: Option<(String, String)>,
}

/// The first key with id `kid`, as `JwkSet::find` picks it.
pub open spec fn find_key(keys: Seq<KeyEntry>, kid: Seq<char>) -> Option<int>
    decreases keys.len(),
{
    if keys.len() == 0 {
        None
    } else {
        match find_key(keys.drop_last(), kid) {
            Some(i) => Some(i),
            None => if keys.last().key_id matches Some(k) && k@ == kid {
                Some(keys.len() - 1)
            } else {
                None
            },
        }
    }
}

proof fn lemma_find_key_bounds(keys: Seq<KeyEntry>, kid: Seq<char>)
    ensures
        find_key(keys, kid) matches Some(i) ==> (keys[i].key_id matches Some(k) && k@ == kid && 0 <= i
            < keys.len()),
    decreases keys.len(),
{
    if keys.len() > 0 {
        lemma_find_key_bounds(keys.drop_last(), kid);
    }
}

fn find(keys: &Vec<KeyEntry>, kid: &str) -> (r: Option<usize>)
    ensures
        match r {
            Some(i) => find_key(keys@, kid@) == Some(i as int),
            None => find_key(keys@, kid@) is None,
        },
{
    let mut i: usize = 0;
    while i < keys.len()
        invariant
            i <= keys.len(),
            find_key(keys@.take(i as int), kid@) is None,
        decreases keys.len() - i,
    {
        assert(keys@.take(i + 1).drop_last() == keys@.take(i as int));
        let hit = match &keys[i].key_id {
            Some(k) => same_text(k.as_str(), kid),
            None => false,
        };
        if hit {
            assert(find_key(keys@.take(i + 1), kid@) == Some(i as int));
            proof {
                lemma_find_prefix(keys@, kid@, i as int + 1);
            }
            return Some(i);
        }
        i = i + 1;
    }
    assert(keys@.take(i as int) == keys@);
    None
}

proof fn lemma_find_prefix(keys: Seq<KeyEntry>, kid: Seq<char>, n: int)
    requires
        0 <= n <= keys.len(),
        find_key(keys.take(n), kid) is Some,
    ensures
        find_key(keys, kid) == find_key(keys.take(n), kid),
    decreases keys.len() - n,
{
    if n < keys.len() {
        assert(keys.take(n + 1).drop_last() == keys.take(n));
        lemma_find_prefix(keys, kid, n + 1);
    } else {
        assert(keys.take(n) == keys);
    }
}

/// Why no ID could be read from a token.
#[derive(Debug, Clone, PartialEq, Eq)]
pub enum IdentityError {
    /// The token, its key or its signature was refused.
    Token,
    /// The token's header names no key.
    MalformedToken,
    /// None of the provider's keys has the id the token names.
    KeyNotFound(String),
    /// The key is not an RSA key.
    UnsupportedAlgorithm,
    /// The token holds no claim of that name.
    ClaimNotFound(String),
}

/// The RSA key of the token's signer, or why there is none: the header must
/// be readable and name a key, the key must be among `keys`, and it must
/// be an RSA key.
pub open spec fn signer(token: Seq<char>, keys: Seq<KeyEntry>) -> Result<(Seq<char>, Seq<char>), IdentityError> {
    match header_of(token) {
        None => Err(IdentityError::Token),
        Some((None, _)) => Err(IdentityError::MalformedToken),
        Some((Some(kid), _)) => match find_key(keys, kid) {
            None => Err(IdentityError::KeyNotFound(choose|s: String| s@ == kid)),
            Some(i) => match keys[i].rsa {
                Some((n, e)) => Ok((n@, e@)),
                None => Err(IdentityError::UnsupportedAlgorithm),
            },
        },
    }
}

/// The claims of `token` once its signer's key accepts it, or why not:
/// past the signer, a header algorithm outside the RSA family is refused
/// (`jsonwebtoken::decode` refuses an algorithm of another family than the
/// key's), and otherwise the check by `decoded` decides, with the expiry
/// and the audience not checked.
pub open spec fn checked_claims(token: Seq<char>, keys: Seq<KeyEntry>, audience: Seq<char>) -> Result<
    Seq<(Seq<char>, Seq<char>)>,
    IdentityError,
> {
    match signer(token, keys) {
        Err(x) => Err(x),
        Ok((n, e)) => match header_of(token) {
            Some((_, Some(alg))) => match decoded(token, n, e, alg, audience, false) {
                Some(d) => Ok(d),
                None => Err(IdentityError::Token),
            },
            _ => Err(IdentityError::Token),
        },
    }
}

/// The user's ID in `token`: the text of its claim `claim`, or why there is
/// none.
pub open spec fn token_identity(token: Seq<char>, keys: Seq<KeyEntry>, audience: Seq<char>, claim: Seq<char>) -> Result<
    Seq<char>,
    IdentityError,
> {
    match checked_claims(token, keys, audience) {
        Err(x) => Err(x),
        Ok(d) => match claim_text_of(d, claim) {
            Some(t) => Ok(t),
            None => Err(IdentityError::ClaimNotFound(choose|s: String| s@ == claim)),
        },
    }
}

/// The claims of `id_token`, once its signature by one of `keys` is
/// checked, each by its name and its text. The expiry and the audience are
/// not checked.
///
/// An unreadable header, a header without a key id, an unknown key id and
/// a key that is not RSA are refused as such; a header algorithm outside
/// the RSA family, RSA components that do not decode and a token that the
/// key refuses are refused as `Token`.
pub fn verified_claims(id_token: &str, keys: &Vec<KeyEntry>, audience: &str) -> (r: Result<Vec<(String, String)>, IdentityError>)
    ensures
        match checked_claims(id_token@, keys@, audience@) {
            Err(IdentityError::KeyNotFound(_)) => r matches Err(IdentityError::KeyNotFound(k))
                && header_of(id_token@) matches Some((Some(kid), _)) && k@ == kid,
            Err(x) => r == Err::<Vec<(String, String)>, IdentityError>(x),
            Ok(d) => r matches Ok(c) && claim_views(c@) == d,
        },
{
    let (kid, alg) = match token_header(id_token) {
        Ok(h) => h,
        Err(_) => {
            return Err(IdentityError::Token);
        },
    };
    let kid = match kid {
        Some(k) => k,
        None => {
            return Err(IdentityError::MalformedToken);
        },
    };
    let i = match find(keys, kid.as_str()) {
        Some(i) => i,
        None => {
            return Err(IdentityError::KeyNotFound(kid));
        },
    };
    proof {
        lemma_find_key_bounds(keys@, kid@);
    }
    let (n, e) = match &keys[i].rsa {
        Some(parts) => (parts.0.as_str(), parts.1.as_str()),
        None => {
            return Err(IdentityError::UnsupportedAlgorithm);
        },
    };
    let alg = match alg {
        Some(a) => a,
        None => {
            return Err(IdentityError::Token);
        },
    };
    match decode_claims(id_token, n, e, alg, audience, false, false) {
        Ok(c) => Ok(c),
        Err(_) => Err(IdentityError::Token),
    }
}

/// The text of the first claim named `name` among `claims`.
pub fn find_claim(claims: &Vec<(String, String)>, name: &str) -> (r: Option<String>)
    ensures
        opt_view(r) == claim_text_of(claim_views(claims@), name@),
{
    let mut i: usize = 0;
    assert(claim_views(claims@).skip(0) =~= claim_views(claims@));
    while i < claims.len()
        invariant
            i <= claims.len(),
            claim_text_of(claim_views(claims@), name@) == claim_text_of(claim_views(claims@).skip(i as int), name@),
        decreases claims.len() - i,
    {
        let ghost rest = claim_views(claims@).skip(i as int);
        assert(rest[0] == (claims@[i as int].0@, claims@[i as int].1@));
        if same_text(claims[i].0.as_str(), name) {
            return Some(claims[i].1.clone());
        }
        assert(rest.drop_first() =~= claim_views(claims@).skip(i + 1));
        i = i + 1;
    }
    None
}

/// Reads the user's ID, the claim `claim`, out of `id_token`, signed by one
/// of `keys`: the claims as `verified_claims` gives them, and then the
/// claim's text, which for a string claim is the string itself.
pub fn identity(id_token: &str, keys: &Vec<KeyEntry>, audience: &str, claim: &str) -> (r: Result<String, IdentityError>)
    ensures
        match token_identity(id_token@, keys@, audience@, claim@) {
            Err(IdentityError::KeyNotFound(_)) => r matches Err(IdentityError::KeyNotFound(k))
                && header_of(id_token@) matches Some((Some(kid), _)) && k@ == kid,
            Err(IdentityError::ClaimNotFound(_)) => r matches Err(IdentityError::ClaimNotFound(c)) && c@ == claim@,
            Err(x) => r == Err::<String, IdentityError>(x),
            Ok(t) => r matches Ok(id) && id@ == t,
        },
{
    match verified_claims(id_token, keys, audience) {
        Ok(claims) => match find_claim(&claims, claim) {
            Some(id) => Ok(id),
            None => Err(IdentityError::ClaimNotFound(claim.to_string())),
        },
        Err(e) => Err(e),
    }
}

} // verus!
