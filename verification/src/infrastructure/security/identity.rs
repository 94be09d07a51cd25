use jsonwebtoken::{decode, encode, DecodingKey, EncodingKey, Header, Validation};
use serde_json::Value;
use crate::common::settings::{read_string, setting_text, text_or};
use crate::common::utils::{decimal, i64_to_text, nonce};
use crate::common::xtime::unix_now;
use vstd::prelude::*;

verus! {

/// How long an issued credential stays valid, in hours.
pub const TOKEN_EXPIRE_HOURS: i64 = 24;

/// The same lifetime in seconds: the distance between `iat` and `exp`.
pub const TOKEN_LIFETIME_SECS: i64 = 86400;

/// The issuer named in every credential.
pub const TOKEN_ISSUER: &'static str = "your_app_name";

/// The key of the signing secret in the configuration.
pub const SECRET_KEY: &'static str = "app.secret";

/// The key of the issuer's name in the configuration.
pub const ISSUER_KEY: &'static str = "app.issuer";

/// The number of characters drawn for a credential where the caller hands
/// none over.
pub const NONCE_LENGTH: usize = 16;

/// Why a credential could not be produced or accepted.
#[derive(Debug)]
pub enum AuthError {
    InvalidToken,
    TokenExpired,
    ValidationFailed(String),
    TokenCreationFailed(String),
    ConfigError(String),
}

impl AuthError {
    /// What [`AuthError::message`] writes.
    pub open spec fn spec_message(&self) -> Seq<char> {
        match self {
            AuthError::InvalidToken => "Token is invalid"@,
            AuthError::TokenExpired => "Token has expired"@,
            AuthError::ValidationFailed(m) => "Token validation failed: "@ + m@,
            AuthError::TokenCreationFailed(m) => "Failed to create token: "@ + m@,
            AuthError::ConfigError(m) => "Configuration error: "@ + m@,
        }
    }

    /// The error in words.
    pub fn message(&self) -> (r: String)
        ensures
            r@ == self.spec_message(),
    {
        match self {
            AuthError::InvalidToken => "Token is invalid".to_owned(),
            AuthError::TokenExpired => "Token has expired".to_owned(),
            AuthError::ValidationFailed(m) => "Token validation failed: ".to_owned().concat(
                m.as_str(),
            ),
            AuthError::TokenCreationFailed(m) => "Failed to create token: ".to_owned().concat(
                m.as_str(),
            ),
            AuthError::ConfigError(m) => "Configuration error: ".to_owned().concat(m.as_str()),
        }
    }
}

/// The signed payload of a credential.
#[derive(Debug, Clone)]
pub struct Claims {
    /// Expiry, in seconds since the Unix epoch.
    pub exp: i64,
    /// Time of issue, in seconds since the Unix epoch.
    pub iat: i64,
    /// Who issued the credential.
    pub iss: String,
    /// The value drawn for this one credential, which tells it from every
    /// other that is issued to the same user, also within one second.
    pub jti: String,
    /// The user id the credential stands for.
    pub sub: i64,
    /// The kind of credential.
    pub typ: String,
}

/// The mathematical value of a [`Claims`].
#[verifier::ext_equal]
pub struct ClaimsView {
    pub exp: int,
    pub iat: int,
    pub iss: Seq<char>,
    pub jti: Seq<char>,
    pub sub: int,
    pub typ: Seq<char>,
}

impl ClaimsView {
    /// Every number fits the 64-bit fields of a [`Claims`].
    pub open spec fn representable(self) -> bool {
        &&& i64::MIN <= self.exp <= i64::MAX
        &&& i64::MIN <= self.iat <= i64::MAX
        &&& i64::MIN <= self.sub <= i64::MAX
    }
}

impl View for Claims {
    type V = ClaimsView;

    open spec fn view(&self) -> ClaimsView {
        ClaimsView {
            exp: self.exp as int,
            iat: self.iat as int,
            iss: self.iss@,
            jti: self.jti@,
            sub: self.sub as int,
            typ: self.typ@,
        }
    }
}

/// The members of a decoded payload as they were found, before any of them
/// is required: `None` stands for a member that is missing or has another
/// JSON type than the one expected.
pub struct RawClaims {
    pub exp: Option<i64>,
    pub iat: Option<i64>,
    pub iss: Option<String>,
    pub jti: Option<String>,
    pub sub: Option<i64>,
    /// Whether the payload has a member `typ` at all.
    pub has_typ: bool,
    pub typ: Option<String>,
}

/// The mathematical value of a [`RawClaims`].
pub struct RawClaimsView {
    pub exp: Option<int>,
    pub iat: Option<int>,
    pub iss: Option<Seq<char>>,
    pub jti: Option<Seq<char>>,
    pub sub: Option<int>,
    pub has_typ: bool,
    pub typ: Option<Seq<char>>,
}

impl View for RawClaims {
    type V = RawClaimsView;

    open spec fn view(&self) -> RawClaimsView {
        RawClaimsView {
            exp: match self.exp {
                Some(v) => Some(v as int),
                None => None,
            },
            iat: match self.iat {
                Some(v) => Some(v as int),
                None => None,
            },
            iss: match self.iss {
                Some(s) => Some(s@),
                None => None,
            },
            jti: match self.jti {
                Some(s) => Some(s@),
                None => None,
            },
            sub: match self.sub {
                Some(v) => Some(v as int),
                None => None,
            },
            has_typ: self.has_typ,
            typ: match self.typ {
                Some(s) => Some(s@),
                None => None,
            },
        }
    }
}

/// The payload in which every member of `claims` is present and well typed.
pub open spec fn raw_of(claims: ClaimsView) -> RawClaimsView {
    RawClaimsView {
        exp: Some(claims.exp),
        iat: Some(claims.iat),
        iss: Some(claims.iss),
        jti: Some(claims.jti),
        sub: Some(claims.sub),
        has_typ: true,
        typ: Some(claims.typ),
    }
}

/// The text of the HS256 token that carries the six claims, signed with
/// `secret`.
pub uninterp spec fn hs256_token(
    exp: int,
    iat: int,
    iss: Seq<char>,
    jti: Seq<char>,
    sub: int,
    typ: Seq<char>,
    secret: Seq<char>,
) -> Seq<char>;

/// The payload of `token`, if `token` is a well-formed HS256 token whose
/// signature was made with `secret`; `None` for every other text.
pub uninterp spec fn hs256_payload(token: Seq<char>, secret: Seq<char>) -> Option<RawClaimsView>;

/// The token text for a whole set of claims.
pub open spec fn token_text(c: ClaimsView, secret: Seq<char>) -> Seq<char> {
    hs256_token(c.exp, c.iat, c.iss, c.jti, c.sub, c.typ, secret)
}

/// The error of the crate jsonwebtoken. Nothing is known of what is inside.
#[verifier::external_type_specification]
#[verifier::external_body]
pub struct ExJwtError(jsonwebtoken::errors::Error);

/// `jsonwebtoken::encode` with the default header (HS256, type JWT) and a key
/// made with `EncodingKey::from_secret`. The payload is a JSON object with the
/// members `exp`, `iat`, `iss`, `jti`, `sub` and `typ`. Trusted:
///
/// - the call succeeds: the key is of the family of the header's algorithm,
///   a header and a map of numbers and texts are always written out as
///   JSON, and signing with HMAC does not fail;
/// - the token is the one that `hs256_token` names for these values, and,
///   being three parts joined by dots, it is not the empty text;
/// - the token holds its payload written out in full, so that no other
///   claims give the same token under the same secret.
#[verifier::external_body]
fn jwt_encode(claims: &Claims, secret: &str) -> (r: Result<String, jsonwebtoken::errors::Error>)
    ensures
        r is Ok,
        r matches Ok(t) ==> t@.len() > 0,
        r matches Ok(t) ==> t@ == hs256_token(
            claims@.exp,
            claims@.iat,
            claims@.iss,
            claims@.jti,
            claims@.sub,
            claims@.typ,
            secret@,
        ),
        r matches Ok(t) ==> forall|c: ClaimsView|
            c.representable() && t@ == #[trigger] token_text(c, secret@) ==> c == claims@,
{
    let mut payload = serde_json::Map::new();
    payload.insert("exp".to_owned(), Value::from(claims.exp));
    payload.insert("iat".to_owned(), Value::from(claims.iat));
    payload.insert("iss".to_owned(), Value::from(claims.iss.as_str()));
    payload.insert("jti".to_owned(), Value::from(claims.jti.as_str()));
    payload.insert("sub".to_owned(), Value::from(claims.sub));
    payload.insert("typ".to_owned(), Value::from(claims.typ.as_str()));
    encode(&Header::default(), &payload, &EncodingKey::from_secret(secret.as_bytes()))
}

/// `jsonwebtoken::decode` with a key made with `DecodingKey::from_secret` and
/// the default validation for HS256, except that the crate neither reads the
/// clock nor asks for `exp`: expiry is judged by the caller. Trusted: the
/// call succeeds exactly on the tokens for which `hs256_payload` names a
/// payload, and hands that payload back; and a token that `jwt_encode` made
/// with the same secret decodes to the claims it was made from.
#[verifier::external_body]
fn jwt_decode(token: &str, secret: &str) -> (r: Result<RawClaims, jsonwebtoken::errors::Error>)
    ensures
        r is Ok <==> hs256_payload(token@, secret@) is Some,
        r matches Ok(raw) ==> hs256_payload(token@, secret@) == Some(raw@),
        r is Err ==> forall|c: ClaimsView|
            c.representable() ==> token@ != #[trigger] token_text(c, secret@),
        r matches Ok(raw) ==> forall|c: ClaimsView|
            c.representable() && token@ == #[trigger] token_text(c, secret@) ==> raw@ == raw_of(c),
{
    let mut rules = Validation::default();
    rules.validate_exp = false;
    rules.required_spec_claims.clear();
    let v = decode::<Value>(token, &DecodingKey::from_secret(secret.as_bytes()), &rules)?.claims;
    Ok(RawClaims {
        exp: v.get("exp").and_then(Value::as_i64),
        iat: v.get("iat").and_then(Value::as_i64),
        iss: v.get("iss").and_then(Value::as_str).map(str::to_owned),
        jti: v.get("jti").and_then(Value::as_str).map(str::to_owned),
        sub: v.get("sub").and_then(Value::as_i64),
        has_typ: v.get("typ").is_some(),
        typ: v.get("typ").and_then(Value::as_str).map(str::to_owned),
    })
}

/// `Display` of `jsonwebtoken::errors::Error`: the text that describes a
/// failure of the crate. Nothing is promised of it.
#[verifier::external_body]
fn jwt_error_text(e: &jsonwebtoken::errors::Error) -> String {
    e.to_string()
}

/// The kind that a credential gets when its payload names none.
pub fn default_token_type() -> (r: String)
    ensures
        r@ == "access"@,
{
    "access".to_owned()
}

/// The claims that a payload stands for: `exp`, `iat`, `iss`, `jti` and
/// `sub` are required, `typ` falls back to `"access"` where the payload has
/// none. A member of the wrong JSON type makes the payload unusable.
pub open spec fn claims_of_raw(raw: RawClaimsView) -> Option<ClaimsView> {
    if raw.exp is Some && raw.iat is Some && raw.iss is Some && raw.jti is Some && raw.sub is Some
        && (raw.has_typ ==> raw.typ is Some) {
        Some(
            ClaimsView {
                exp: raw.exp->0,
                iat: raw.iat->0,
                iss: raw.iss->0,
                jti: raw.jti->0,
                sub: raw.sub->0,
                typ: if raw.has_typ {
                    raw.typ->0
                } else {
                    "access"@
                },
            },
        )
    } else {
        None
    }
}

/// The claims that `token` proves under `secret`, if it proves any: its
/// payload, read as claims. Expiry is not looked at here.
pub open spec fn signed_claims(token: Seq<char>, secret: Seq<char>) -> Option<ClaimsView> {
    match hs256_payload(token, secret) {
        Some(raw) => claims_of_raw(raw),
        None => None,
    }
}

/// Whether `token` proves claims under `secret` whose subject is `user_id`.
pub open spec fn names_subject(token: Seq<char>, secret: Seq<char>, user_id: int) -> bool {
    match signed_claims(token, secret) {
        Some(c) => c.sub == user_id,
        None => false,
    }
}

/// A credential is valid for a day from its issue, and so expires after it
/// was issued.
pub proof fn lemma_issued_for_a_day(user_id: int, now: int, issuer: Seq<char>, nonce: Seq<char>)
    ensures
        issued_claims(user_id, now, issuer, nonce).exp - issued_claims(
            user_id,
            now,
            issuer,
            nonce,
        ).iat == TOKEN_EXPIRE_HOURS * 3600,
        issued_claims(user_id, now, issuer, nonce).exp > issued_claims(
            user_id,
            now,
            issuer,
            nonce,
        ).iat,
        issued_claims(user_id, now, issuer, nonce).sub == user_id,
{
}

/// The claims written into a credential for `user_id` at time `now`, with
/// `nonce` as the value drawn for it.
pub open spec fn issued_claims(
    user_id: int,
    now: int,
    issuer: Seq<char>,
    nonce: Seq<char>,
) -> ClaimsView {
    ClaimsView {
        exp: now + TOKEN_LIFETIME_SECS,
        iat: now,
        iss: issuer,
        jti: nonce,
        sub: user_id,
        typ: "access"@,
    }
}

impl Claims {
    /// Reads a decoded payload as claims.
    pub fn from_raw(raw: RawClaims) -> (r: Option<Claims>)
        ensures
            match claims_of_raw(raw@) {
                Some(c) => r matches Some(x) && x@ == c,
                None => r is None,
            },
    {
        let RawClaims { exp, iat, iss, jti, sub, has_typ, typ } = raw;
        match (exp, iat, iss, jti, sub) {
            (Some(exp), Some(iat), Some(iss), Some(jti), Some(sub)) => {
                if has_typ {
                    match typ {
                        Some(typ) => Some(Claims { exp, iat, iss, jti, sub, typ }),
                        None => None,
                    }
                } else {
                    Some(Claims { exp, iat, iss, jti, sub, typ: default_token_type() })
                }
            },
            _ => None,
        }
    }
}

/// The signing secret of a configuration: the text under `app.secret`.
/// Where there is none, the configuration is at fault.
pub fn get_secret(cfg: &config::Config) -> (r: Result<String, AuthError>)
    ensures
        match setting_text(*cfg, SECRET_KEY@) {
            Some(text) => r matches Ok(s) && s@ == text,
            None => r matches Err(AuthError::ConfigError(m)) && m@
                == "Failed to get JWT secret from config"@,
        },
{
    match read_string(cfg, SECRET_KEY) {
        Some(s) => Ok(s),
        None => Err(AuthError::ConfigError("Failed to get JWT secret from config".to_owned())),
    }
}

/// Issues and verifies credentials with one signing secret and one issuer
/// name, both fixed when the codec is made.
pub struct Codec {
    secret: String,
    issuer: String,
}

impl Codec {
    /// The signing secret.
    pub closed spec fn secret(&self) -> Seq<char> {
        self.secret@
    }

    /// The issuer name written into every credential.
    pub closed spec fn issuer(&self) -> Seq<char> {
        self.issuer@
    }

    /// The credential that this codec issues for `user_id` at time `now`,
    /// with `nonce` as the value drawn for it.
    pub open spec fn credential_for(&self, user_id: int, now: int, nonce: Seq<char>) -> Seq<char> {
        token_text(issued_claims(user_id, now, self.issuer(), nonce), self.secret())
    }

    /// Whether `credential` can have been issued by this codec for `user_id`
    /// at `now` with `nonce` only: whatever differs in the user, in the time
    /// or in the value drawn gives another credential.
    pub open spec fn unique_to(
        &self,
        credential: Seq<char>,
        user_id: int,
        now: int,
        nonce: Seq<char>,
    ) -> bool {
        forall|other_user: i64, at: i64, other: Seq<char>|
            at + TOKEN_LIFETIME_SECS <= i64::MAX && credential == #[trigger] self.credential_for(
                other_user as int,
                at as int,
                other,
            ) ==> other_user == user_id && at == now && other == nonce
    }

    /// Whether `r` is what issuing a credential for `user_id` at `now` with
    /// `nonce` gives. Where `now + 24h` fits 64 bits, it is the credential
    /// of these three, which is not the empty text and is the credential of
    /// no other three. Where it does not fit, nothing is issued.
    pub open spec fn issues(
        &self,
        user_id: int,
        now: int,
        nonce: Seq<char>,
        r: Result<String, AuthError>,
    ) -> bool {
        if now + TOKEN_LIFETIME_SECS <= i64::MAX {
            &&& r matches Ok(t)
            &&& t@ == self.credential_for(user_id, now, nonce)
            &&& t@.len() > 0
            &&& self.unique_to(t@, user_id, now, nonce)
        } else {
            r matches Err(AuthError::TokenCreationFailed(m)) && m@ == "expiry time out of range"@
        }
    }

    /// What verification at time `now` makes of `credential`: the claims it
    /// proves, if its signature and structure hold and `exp` lies after
    /// `now`.
    pub open spec fn accepts(&self, credential: Seq<char>, now: int) -> Option<ClaimsView> {
        match signed_claims(credential, self.secret()) {
            Some(c) => if c.exp > now {
                Some(c)
            } else {
                None
            },
            None => None,
        }
    }

    /// Whether `r` is what verifying `credential` as of `now` gives: a text
    /// that proves no claims under this codec's secret is `InvalidToken`; a
    /// signed token whose `exp` is not after `now` is `TokenExpired`; any
    /// other is accepted with its claims.
    pub open spec fn verifies(
        &self,
        credential: Seq<char>,
        now: int,
        r: Result<Claims, AuthError>,
    ) -> bool {
        match signed_claims(credential, self.secret()) {
            None => r matches Err(AuthError::InvalidToken),
            Some(c) => if c.exp > now {
                r matches Ok(x) && x@ == c
            } else {
                r matches Err(AuthError::TokenExpired)
            },
        }
    }

    /// Whether verification at time `now` accepts `credential` as one of
    /// user `user_id`.
    pub open spec fn accepts_for(&self, credential: Seq<char>, now: int, user_id: int) -> bool {
        match self.accepts(credential, now) {
            Some(c) => c.sub == user_id,
            None => false,
        }
    }

    pub fn new(secret: &str, issuer: &str) -> (r: Self)
        ensures
            r.secret() == secret@,
            r.issuer() == issuer@,
    {
        Codec { secret: secret.to_owned(), issuer: issuer.to_owned() }
    }

    /// The codec of a configuration: it signs with the secret under
    /// `app.secret` and names the issuer under `app.issuer`, or
    /// [`TOKEN_ISSUER`] where the configuration names none.
    pub fn from_config(cfg: &config::Config) -> (r: Result<Self, AuthError>)
        ensures
            match setting_text(*cfg, SECRET_KEY@) {
                Some(secret) => r matches Ok(codec) && codec.secret() == secret && codec.issuer()
                    == text_or(*cfg, ISSUER_KEY@, TOKEN_ISSUER@),
                None => r matches Err(AuthError::ConfigError(m)) && m@
                    == "Failed to get JWT secret from config"@,
            },
    {
        match get_secret(cfg) {
            Ok(secret) => {
                let issuer = match read_string(cfg, ISSUER_KEY) {
                    Some(name) => name,
                    None => TOKEN_ISSUER.to_owned(),
                };
                Ok(Codec { secret, issuer })
            },
            Err(e) => Err(e),
        }
    }

    /// Turns the outcome of signing into the outcome of issuing: the token
    /// as it is, or `TokenCreationFailed` with the signer's own words.
    pub fn issued(outcome: Result<String, jsonwebtoken::errors::Error>) -> (r: Result<
        String,
        AuthError,
    >)
        ensures
            match outcome {
                Ok(t) => r == Ok::<String, AuthError>(t),
                Err(_) => r matches Err(AuthError::TokenCreationFailed(_)),
            },
    {
        match outcome {
            Ok(t) => Ok(t),
            Err(e) => Err(AuthError::TokenCreationFailed(jwt_error_text(&e))),
        }
    }

    /// Issues a credential for `user_id` as of `now`, with `nonce` as the
    /// value that tells it from every other: the claims are
    /// [`issued_claims`], valid for 24 hours. Where `now + 24h` does not fit
    /// 64 bits, nothing is signed and the call fails.
    pub fn issue_at(&self, user_id: i64, now: i64, nonce: &str) -> (r: Result<String, AuthError>)
        ensures
            self.issues(user_id as int, now as int, nonce@, r),
    {
        match now.checked_add(TOKEN_LIFETIME_SECS) {
            None => Err(
                AuthError::TokenCreationFailed("expiry time out of range".to_owned()),
            ),
            Some(exp) => {
                let claims = Claims {
                    exp,
                    iat: now,
                    iss: self.issuer.clone(),
                    jti: nonce.to_owned(),
                    sub: user_id,
                    typ: default_token_type(),
                };
                let r = Self::issued(jwt_encode(&claims, self.secret.as_str()));
                proof {
                    let t = r->Ok_0;
                    assert forall|other_user: i64, at: i64, other: Seq<char>|
                        at + TOKEN_LIFETIME_SECS <= i64::MAX && t@ == #[trigger] self.credential_for(
                            other_user as int,
                            at as int,
                            other,
                        ) implies other_user == user_id && at == now && other == nonce@ by {
                        let c = issued_claims(other_user as int, at as int, self.issuer(), other);
                        assert(c.representable());
                        assert(t@ == token_text(c, self.secret()));
                        assert(c == claims@);
                    }
                }
                r
            },
        }
    }

    /// Issues a credential for `user_id` as of the clock's reading, with a
    /// value of [`NONCE_LENGTH`] letters and digits drawn at random: the
    /// outcome is that of [`Codec::issue_at`] for some time and some such
    /// value.
    pub fn issue(&self, user_id: i64) -> (r: Result<String, AuthError>)
        ensures
            exists|now: i64, drawn: Seq<char>|
                drawn.len() == NONCE_LENGTH && #[trigger] self.issues(
                    user_id as int,
                    now as int,
                    drawn,
                    r,
                ),
    {
        let now = unix_now();
        let drawn = nonce(NONCE_LENGTH);
        let r = self.issue_at(user_id, now, drawn.as_str());
        assert(drawn@.len() == NONCE_LENGTH && self.issues(user_id as int, now as int, drawn@, r));
        r
    }

    /// Verifies `credential` as of `now`. A text that is no token signed
    /// with this codec's secret, or whose payload lacks a claim, is
    /// `InvalidToken`; a signed token whose `exp` is not after `now` is
    /// `TokenExpired`; any other is accepted with its claims. A credential
    /// that this codec issued is never `InvalidToken`.
    pub fn verify_at(&self, credential: &str, now: i64) -> (r: Result<Claims, AuthError>)
        ensures
            self.verifies(credential@, now as int, r),
            forall|c: ClaimsView|
                c.representable() && credential@ == #[trigger] token_text(c, self.secret())
                    ==> signed_claims(credential@, self.secret()) == Some(c),
            forall|user_id: i64, issued: i64, drawn: Seq<char>|
                issued + TOKEN_LIFETIME_SECS <= i64::MAX && credential@
                    == #[trigger] self.credential_for(user_id as int, issued as int, drawn) ==> (if issued
                    + TOKEN_LIFETIME_SECS > now {
                    r matches Ok(x) && x.sub == user_id && x.iat == issued && x.exp == issued
                        + TOKEN_LIFETIME_SECS && x.jti@ == drawn
                } else {
                    r matches Err(AuthError::TokenExpired)
                }),
    {
        proof {
            assert forall|user_id: i64, issued: i64, drawn: Seq<char>|
                issued + TOKEN_LIFETIME_SECS <= i64::MAX implies (#[trigger] issued_claims(
                user_id as int,
                issued as int,
                self.issuer(),
                drawn,
            )).representable() by {}
        }
        match jwt_decode(credential, self.secret.as_str()) {
            Err(_) => Err(AuthError::InvalidToken),
            Ok(raw) => {
                assert forall|c: ClaimsView|
                    c.representable() && credential@ == #[trigger] token_text(
                        c,
                        self.secret(),
                    ) implies signed_claims(credential@, self.secret()) == Some(c) by {
                    assert(raw@ == raw_of(c));
                }
                match Claims::from_raw(raw) {
                    None => Err(AuthError::InvalidToken),
                    Some(claims) => {
                        if claims.exp > now {
                            Ok(claims)
                        } else {
                            Err(AuthError::TokenExpired)
                        }
                    },
                }
            },
        }
    }

    /// Verifies `credential` as of the clock's reading: the outcome is that
    /// of [`Codec::verify_at`] for some time.
    pub fn verify(&self, credential: &str) -> (r: Result<Claims, AuthError>)
        ensures
            exists|now: i64| #[trigger] self.verifies(credential@, now as int, r),
            signed_claims(credential@, self.secret()) is None ==> r matches Err(
                AuthError::InvalidToken,
            ),
            r matches Ok(x) ==> signed_claims(credential@, self.secret()) == Some(x@),
            r matches Err(e) ==> e is InvalidToken || (e is TokenExpired && signed_claims(
                credential@,
                self.secret(),
            ) is Some),
            forall|user_id: i64, issued: i64, drawn: Seq<char>|
                issued + TOKEN_LIFETIME_SECS <= i64::MAX && credential@
                    == #[trigger] self.credential_for(user_id as int, issued as int, drawn) ==> (match r {
                    Ok(x) => x.sub == user_id && x.iat == issued && x.jti@ == drawn,
                    Err(e) => e is TokenExpired,
                }),
    {
        let now = unix_now();
        let r = self.verify_at(credential, now);
        assert(self.verifies(credential@, now as int, r));
        r
    }
}

/// A credential as a client presents it: the text of a signed token.
#[derive(Debug, Clone)]
pub struct Credential {
    text: String,
}

impl View for Credential {
    type V = Seq<char>;

    closed spec fn view(&self) -> Seq<char> {
        self.text@
    }
}

impl Credential {
    pub fn new(text: &str) -> (r: Self)
        ensures
            r@ == text@,
    {
        Credential { text: text.to_owned() }
    }

    pub fn as_str(&self) -> (r: &str)
        ensures
            r@ == self@,
    {
        self.text.as_str()
    }

    pub fn is_empty(&self) -> (r: bool)
        ensures
            r == (self@.len() == 0),
    {
        self.text.as_str().is_empty()
    }
}

/// What the user record holds for the one live session of a user: the
/// credential issued at the last login, kept verbatim, or nothing. Every
/// login has a value of its own drawn into its credential, so that the
/// secret is a new one at every login. It is a type of its own so that it
/// meets a [`Credential`] only in [`SessionSecret::admits`].
#[derive(Debug, Clone)]
pub struct SessionSecret {
    text: String,
}

impl View for SessionSecret {
    type V = Seq<char>;

    closed spec fn view(&self) -> Seq<char> {
        self.text@
    }
}

/// Whether a stored secret lets a presented credential through: there is a
/// live session, and the credential is the one it was opened with.
pub open spec fn secret_admits(secret: Seq<char>, credential: Seq<char>) -> bool {
    secret.len() > 0 && secret == credential
}

impl SessionSecret {
    /// The secret of a user without a live session.
    pub fn none() -> (r: Self)
        ensures
            r@.len() == 0,
    {
        SessionSecret { text: String::new() }
    }

    /// The secret as read from a user record.
    pub fn from_stored(text: &str) -> (r: Self)
        ensures
            r@ == text@,
    {
        SessionSecret { text: text.to_owned() }
    }

    /// The secret that makes `credential` the one live credential.
    pub fn for_credential(credential: &Credential) -> (r: Self)
        ensures
            r@ == credential@,
    {
        SessionSecret { text: credential.text.clone() }
    }

    /// The text to write into a user record.
    pub fn as_str(&self) -> (r: &str)
        ensures
            r@ == self@,
    {
        self.text.as_str()
    }

    /// No live session.
    pub fn is_empty(&self) -> (r: bool)
        ensures
            r == (self@.len() == 0),
    {
        self.text.as_str().is_empty()
    }

    pub fn admits(&self, credential: &Credential) -> (r: bool)
        ensures
            r == secret_admits(self@, credential@),
    {
        !self.text.as_str().is_empty() && self.text == credential.text
    }
}

/// The identity resolved for one request: a user id and the credential that
/// was presented for it. The anonymous identity has id 0 and no credential.
#[derive(Debug, Clone)]
pub struct Identity {
    id: i64,
    token: Credential,
}

impl Identity {
    /// The user id this identity claims.
    pub closed spec fn spec_id(&self) -> int {
        self.id as int
    }

    /// The credential text carried by this identity.
    pub closed spec fn spec_token(&self) -> Seq<char> {
        self.token@
    }

    /// True of the identity that stands for "nobody".
    pub open spec fn is_anonymous(&self) -> bool {
        self.spec_id() == 0 && self.spec_token().len() == 0
    }

    /// Whether `r` is what resolving the credential `token` as of `now`
    /// gives: the identity of its subject, carrying the credential itself,
    /// where `codec` accepts it, and the reason `codec` gives where it does
    /// not.
    pub open spec fn resolves(
        token: Seq<char>,
        codec: &Codec,
        now: int,
        r: Result<Identity, AuthError>,
    ) -> bool {
        match signed_claims(token, codec.secret()) {
            None => r matches Err(AuthError::InvalidToken),
            Some(c) => if c.exp > now {
                r matches Ok(x) && x.spec_id() == c.sub && x.spec_token() == token
            } else {
                r matches Err(AuthError::TokenExpired)
            },
        }
    }

    /// Whether, as of `now`, this identity carries a credential that
    /// `codec` accepts and that names the identity's own user.
    pub open spec fn valid_at(&self, codec: &Codec, now: int) -> bool {
        self.spec_token().len() > 0 && codec.accepts_for(self.spec_token(), now, self.spec_id())
    }

    /// What [`Identity::to_string`] writes.
    pub open spec fn spec_text(&self) -> Seq<char> {
        if self.spec_id() == 0 {
            "<none>"@
        } else {
            "id:"@ + decimal(self.spec_id()) + "|token:"@ + self.spec_token()
        }
    }

    pub fn new(id: i64, token: &str) -> (r: Self)
        ensures
            r.spec_id() == id,
            r.spec_token() == token@,
    {
        Identity { id, token: Credential::new(token) }
    }

    pub fn empty() -> (r: Self)
        ensures
            r.is_anonymous(),
    {
        proof {
            reveal_strlit("");
        }
        Identity { id: 0, token: Credential::new("") }
    }

    pub fn id(&self) -> (r: i64)
        ensures
            r == self.spec_id(),
    {
        self.id
    }

    /// The credential that was presented.
    pub fn credential(&self) -> (r: &Credential)
        ensures
            r@ == self.spec_token(),
    {
        &self.token
    }

    /// Whether this identity carries exactly `token`.
    pub fn match_token(&self, token: &str) -> (r: bool)
        ensures
            r == (self.spec_token() == token@),
    {
        self.token.text == token.to_owned()
    }

    /// Resolves a presented credential as of `now`: the identity of its
    /// subject, carrying the credential itself, or the reason `codec` gives
    /// for turning it down.
    pub fn from_auth_token_at(token: &str, codec: &Codec, now: i64) -> (r: Result<Self, AuthError>)
        ensures
            Self::resolves(token@, codec, now as int, r),
            forall|c: ClaimsView|
                c.representable() && token@ == #[trigger] token_text(c, codec.secret())
                    ==> signed_claims(token@, codec.secret()) == Some(c),
            forall|user_id: i64, issued: i64, drawn: Seq<char>|
                issued + TOKEN_LIFETIME_SECS <= i64::MAX && token@
                    == #[trigger] codec.credential_for(user_id as int, issued as int, drawn) ==> (if issued
                    + TOKEN_LIFETIME_SECS > now {
                    r matches Ok(x) && x.spec_id() == user_id && x.spec_token() == token@
                } else {
                    r matches Err(AuthError::TokenExpired)
                }),
    {
        match codec.verify_at(token, now) {
            Ok(claims) => Ok(Identity::new(claims.sub, token)),
            Err(e) => Err(e),
        }
    }

    /// Resolves a presented credential as of the clock's reading: the
    /// outcome is that of [`Identity::from_auth_token_at`] for some time.
    pub fn from_auth_token(token: &str, codec: &Codec) -> (r: Result<Self, AuthError>)
        ensures
            exists|now: i64| #[trigger] Self::resolves(token@, codec, now as int, r),
            signed_claims(token@, codec.secret()) is None ==> r matches Err(AuthError::InvalidToken),
            r matches Ok(x) ==> x.spec_token() == token@ && names_subject(
                token@,
                codec.secret(),
                x.spec_id(),
            ),
            r matches Err(e) ==> e is InvalidToken || (e is TokenExpired && signed_claims(
                token@,
                codec.secret(),
            ) is Some),
            forall|user_id: i64, issued: i64, drawn: Seq<char>|
                issued + TOKEN_LIFETIME_SECS <= i64::MAX && token@
                    == #[trigger] codec.credential_for(user_id as int, issued as int, drawn) ==> (match r {
                    Ok(x) => x.spec_id() == user_id,
                    Err(e) => e is TokenExpired,
                }),
    {
        let now = unix_now();
        let r = Self::from_auth_token_at(token, codec, now);
        assert(Self::resolves(token@, codec, now as int, r));
        r
    }

    /// Issues a credential for this identity's user as of `now`, with
    /// `nonce` as the value that tells it from every other: what
    /// [`Codec::issue_at`] gives for the user.
    pub fn to_auth_token_at(&self, codec: &Codec, now: i64, nonce: &str) -> (r: Result<
        String,
        AuthError,
    >)
        ensures
            codec.issues(self.spec_id(), now as int, nonce@, r),
    {
        codec.issue_at(self.id, now, nonce)
    }

    /// Issues a credential for this identity's user as of the clock's
    /// reading, with a value of [`NONCE_LENGTH`] letters and digits drawn at
    /// random: the outcome is that of [`Identity::to_auth_token_at`] for
    /// some time and some such value.
    pub fn to_auth_token(&self, codec: &Codec) -> (r: Result<String, AuthError>)
        ensures
            exists|now: i64, drawn: Seq<char>|
                drawn.len() == NONCE_LENGTH && #[trigger] codec.issues(
                    self.spec_id(),
                    now as int,
                    drawn,
                    r,
                ),
    {
        let now = unix_now();
        let drawn = nonce(NONCE_LENGTH);
        let r = codec.issue_at(self.id, now, drawn.as_str());
        assert(drawn@.len() == NONCE_LENGTH && codec.issues(self.spec_id(), now as int, drawn@, r));
        r
    }

    /// Whether, as of `now`, the credential carried is one that `codec`
    /// accepts and that names this identity's own user. Never fails: a
    /// credential that is turned down gives `false`. Of a credential that
    /// `codec` issued, the answer is whether it was issued to this user and
    /// has not expired.
    pub fn validate_token_at(&self, codec: &Codec, now: i64) -> (r: Result<bool, AuthError>)
        ensures
            r == Ok::<bool, AuthError>(self.valid_at(codec, now as int)),
            forall|user_id: i64, issued: i64, drawn: Seq<char>|
                issued + TOKEN_LIFETIME_SECS <= i64::MAX && self.spec_token().len() > 0
                    && self.spec_token() == #[trigger] codec.credential_for(
                    user_id as int,
                    issued as int,
                    drawn,
                ) ==> r == Ok::<bool, AuthError>(
                    user_id == self.spec_id() && issued + TOKEN_LIFETIME_SECS > now,
                ),
    {
        if self.token.is_empty() {
            return Ok(false);
        }
        match Self::from_auth_token_at(self.token.as_str(), codec, now) {
            Ok(identity) => Ok(identity.id == self.id),
            Err(_) => Ok(false),
        }
    }

    /// [`Identity::validate_token_at`] as of the clock's reading.
    pub fn validate_token(&self, codec: &Codec) -> (r: Result<bool, AuthError>)
        ensures
            r matches Ok(b) && (b ==> self.spec_token().len() > 0 && names_subject(
                self.spec_token(),
                codec.secret(),
                self.spec_id(),
            )),
            exists|now: i64| r == Ok::<bool, AuthError>(#[trigger] self.valid_at(codec, now as int)),
            forall|user_id: i64, issued: i64, drawn: Seq<char>|
                issued + TOKEN_LIFETIME_SECS <= i64::MAX && self.spec_token().len() > 0
                    && user_id != self.spec_id() && self.spec_token()
                    == #[trigger] codec.credential_for(user_id as int, issued as int, drawn) ==> r
                    == Ok::<bool, AuthError>(false),
    {
        let now = unix_now();
        let r = self.validate_token_at(codec, now);
        assert(r == Ok::<bool, AuthError>(self.valid_at(codec, now as int)));
        r
    }

    /// `<none>` for user id 0, else `id:` and the id, then `|token:` and
    /// the credential.
    pub fn to_string(&self) -> (r: String)
        ensures
            r@ == self.spec_text(),
    {
        if self.id == 0 {
            "<none>".to_owned()
        } else {
            let mut out = "id:".to_owned();
            let digits = i64_to_text(self.id);
            out.append(digits.as_str());
            out.append("|token:");
            out.append(self.token.as_str());
            out
        }
    }
}

} // verus!
