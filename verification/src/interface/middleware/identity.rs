use crate::common::xtime::unix_now;
use crate::infrastructure::security::identity::{signed_claims, AuthError, Codec, Identity};
use vstd::prelude::*;
use vstd::string::StrSliceExecFns;

verus! {

/// What an `Authorization` header starts with when it carries a credential.
pub const BEARER_PREFIX: &'static str = "Bearer ";

/// Why a request goes on without an identity.
#[derive(Debug, Clone, Copy, PartialEq, Eq, Structural)]
pub enum Anonymity {
    /// It has no `Authorization` header.
    NoCredential,
    /// The header does not start with `Bearer `.
    BadFormat,
    /// The credential was signed by us, and its time is over.
    Expired,
    /// The credential is no token of ours.
    Invalid,
}

/// What the extraction stage hands on: the identity that the rest of the
/// request sees, and, where that is the anonymous one, the cause, for the
/// log.
#[derive(Debug)]
pub struct Extraction {
    pub identity: Identity,
    pub cause: Option<Anonymity>,
}

/// The credential inside an `Authorization` header: what follows `Bearer `,
/// if the header starts so.
pub open spec fn bearer_of(header: Seq<char>) -> Option<Seq<char>> {
    if BEARER_PREFIX@.is_prefix_of(header) {
        Some(header.skip(BEARER_PREFIX@.len() as int))
    } else {
        None
    }
}

/// The identity that extraction gives a request, as a user id and a
/// credential, with the cause where it is the anonymous one. A request
/// without a header, with one of another shape, or with a credential that
/// the codec turns down goes on anonymous: it is never refused here.
pub open spec fn extracted(header: Option<Seq<char>>, secret: Seq<char>, now: int) -> (
    int,
    Seq<char>,
    Option<Anonymity>,
) {
    match header {
        None => (0, Seq::empty(), Some(Anonymity::NoCredential)),
        Some(h) => match bearer_of(h) {
            None => (0, Seq::empty(), Some(Anonymity::BadFormat)),
            Some(token) => match signed_claims(token, secret) {
                None => (0, Seq::empty(), Some(Anonymity::Invalid)),
                Some(c) => if c.exp > now {
                    (c.sub, token, None)
                } else {
                    (0, Seq::empty(), Some(Anonymity::Expired))
                },
            },
        },
    }
}

/// A header, where there is one, as a value of the model.
pub open spec fn header_view(header: Option<&str>) -> Option<Seq<char>> {
    match header {
        Some(h) => Some(h@),
        None => None,
    }
}

/// Takes the credential out of an `Authorization` header.
pub fn bearer_token(header: &str) -> (r: Option<String>)
    ensures
        match bearer_of(header@) {
            Some(t) => r matches Some(s) && s@ == t,
            None => r is None,
        },
{
    proof {
        reveal_strlit("Bearer ");
    }
    let n = header.unicode_len();
    if n < 7 {
        return None;
    }
    let mut i: usize = 0;
    while i < 7
        invariant
            i <= 7,
            n == header@.len(),
            n >= 7,
            BEARER_PREFIX@.len() == 7,
            forall|j: int| 0 <= j < i ==> header@[j] == BEARER_PREFIX@[j],
        decreases 7 - i,
    {
        if header.get_char(i) != BEARER_PREFIX.get_char(i) {
            assert(BEARER_PREFIX@.subrange(0, 7)[i as int] == BEARER_PREFIX@[i as int]);
            assert(header@.subrange(0, 7)[i as int] == header@[i as int]);
            return None;
        }
        i += 1;
    }
    assert(BEARER_PREFIX@ =~= header@.subrange(0, 7));
    let rest = header.substring_char(7, n);
    assert(header@.skip(7) =~= header@.subrange(7, n as int));
    Some(rest.to_owned())
}

/// Resolves the identity of a request from its `Authorization` header, if
/// it has one, as of `now`. Where the header carries a credential that
/// `codec` accepts, the identity is that of its subject and carries the
/// credential itself; in every other case it is the anonymous identity.
pub fn handle_at(header: Option<&str>, codec: &Codec, now: i64) -> (r: Extraction)
    ensures
        extracted(header_view(header), codec.secret(), now as int) == (
            r.identity.spec_id(),
            r.identity.spec_token(),
            r.cause,
        ),
        r.cause is Some ==> r.identity.is_anonymous(),
{
    let token = match header {
        None => {
            return Extraction { identity: Identity::empty(), cause: Some(Anonymity::NoCredential) };
        },
        Some(h) => match bearer_token(h) {
            None => {
                return Extraction { identity: Identity::empty(), cause: Some(Anonymity::BadFormat) };
            },
            Some(token) => token,
        },
    };
    match Identity::from_auth_token_at(token.as_str(), codec, now) {
        Ok(identity) => Extraction { identity, cause: None },
        Err(AuthError::TokenExpired) => Extraction {
            identity: Identity::empty(),
            cause: Some(Anonymity::Expired),
        },
        Err(_) => Extraction { identity: Identity::empty(), cause: Some(Anonymity::Invalid) },
    }
}

/// [`handle_at`] as of the clock's reading: what [`extracted`] gives for
/// some time.
pub fn handle(header: Option<&str>, codec: &Codec) -> (r: Extraction)
    ensures
        exists|now: i64| #[trigger]
            extracted(header_view(header), codec.secret(), now as int) == (
                r.identity.spec_id(),
                r.identity.spec_token(),
                r.cause,
            ),
        r.cause is Some ==> r.identity.is_anonymous(),
        header is None ==> r.cause == Some(Anonymity::NoCredential),
        header matches Some(h) && bearer_of(h@) is None ==> r.cause == Some(Anonymity::BadFormat),
{
    let now = unix_now();
    let r = handle_at(header, codec, now);
    assert(extracted(header_view(header), codec.secret(), now as int) == (
        r.identity.spec_id(),
        r.identity.spec_token(),
        r.cause,
    ));
    r
}

} // verus!
