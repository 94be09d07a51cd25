pub mod controllers;
pub mod middleware;
pub mod router;

use crate::common::result::response::ApiErr;
use crate::infrastructure::security::identity::{secret_admits, Identity, SessionSecret};
use vstd::prelude::*;

verus! {

/// What looking a user record up gave.
#[derive(Debug)]
pub enum Lookup {
    /// The record exists, and holds this session secret.
    Found(SessionSecret),
    /// There is no record with that id.
    Missing,
    /// The data store could not be asked.
    Failed,
}

/// The mathematical value of a [`Lookup`].
pub enum LookupView {
    Found(Seq<char>),
    Missing,
    Failed,
}

impl View for Lookup {
    type V = LookupView;

    open spec fn view(&self) -> LookupView {
        match self {
            Lookup::Found(secret) => LookupView::Found(secret@),
            Lookup::Missing => LookupView::Missing,
            Lookup::Failed => LookupView::Failed,
        }
    }
}

/// Why the guard turned a request down.
#[derive(Debug, Clone, Copy, PartialEq, Eq, Structural)]
pub enum Denial {
    /// The request carries no identity.
    Unauthenticated,
    /// The identity names a user of whom there is no record.
    AccountMissing,
    /// The user has no live session, or has one under another credential.
    SessionInvalid,
    /// The data store could not be asked.
    ServiceFailure,
}

impl Denial {
    /// The cause in words, for the log.
    pub fn message(&self) -> (r: &'static str)
        ensures
            r@ == match *self {
                Denial::Unauthenticated => "未授权，请先登录"@,
                Denial::AccountMissing => "授权账号不存在"@,
                Denial::SessionInvalid => "授权已失效"@,
                Denial::ServiceFailure => "授权服务异常"@,
            },
    {
        match self {
            Denial::Unauthenticated => "未授权，请先登录",
            Denial::AccountMissing => "授权账号不存在",
            Denial::SessionInvalid => "授权已失效",
            Denial::ServiceFailure => "授权服务异常",
        }
    }
}

/// The guard's verdict on a request of user `user_id` that presented
/// `credential`, given what the user's record holds. The anonymous user is
/// turned down before any record is looked at; a user without a record is
/// turned down; and then only the credential under which the user's one
/// live session was opened is let through.
pub open spec fn guard_verdict(user_id: int, credential: Seq<char>, record: LookupView) -> Result<
    (),
    Denial,
> {
    if user_id == 0 {
        Err(Denial::Unauthenticated)
    } else {
        match record {
            LookupView::Missing => Err(Denial::AccountMissing),
            LookupView::Failed => Err(Denial::ServiceFailure),
            LookupView::Found(secret) => if secret_admits(secret, credential) {
                Ok(())
            } else {
                Err(Denial::SessionInvalid)
            },
        }
    }
}

/// The user whose record the guard has to see before it can decide, if it
/// has to see one: none for the anonymous identity, which is turned down
/// as it is.
pub fn auth_subject(identity: &Identity) -> (r: Option<i64>)
    ensures
        match r {
            Some(id) => id != 0 && id == identity.spec_id(),
            None => identity.spec_id() == 0,
        },
{
    if identity.id() == 0 {
        None
    } else {
        Some(identity.id())
    }
}

/// Decides whether a request may go on to a protected route, from the
/// identity it carries and from what the record of that user holds.
pub fn auth_check(identity: &Identity, record: &Lookup) -> (r: Result<(), Denial>)
    ensures
        r == guard_verdict(identity.spec_id(), identity.spec_token(), record@),
{
    if identity.id() == 0 {
        return Err(Denial::Unauthenticated);
    }
    match record {
        Lookup::Found(secret) => {
            if secret.admits(identity.credential()) {
                Ok(())
            } else {
                Err(Denial::SessionInvalid)
            }
        },
        Lookup::Missing => Err(Denial::AccountMissing),
        Lookup::Failed => Err(Denial::ServiceFailure),
    }
}

impl Denial {
    /// What the client is told: that it is not authorized, or, where the
    /// data store failed, that the server failed. The cause stays with us.
    pub fn response(&self) -> (r: ApiErr)
        ensures
            *self == Denial::ServiceFailure ==> r == ApiErr::ErrSystem(None),
            *self != Denial::ServiceFailure ==> r == ApiErr::ErrAuth(None),
    {
        match self {
            Denial::ServiceFailure => ApiErr::ErrSystem(None),
            _ => ApiErr::ErrAuth(None),
        }
    }
}

/// What the data store holds of every user's session: for each user of whom
/// there is a record, the session secret in it.
pub type SessionStore = Map<int, Seq<char>>;

/// What looking `user_id` up in `store` gives.
pub open spec fn record_in(store: SessionStore, user_id: int) -> LookupView {
    if store.contains_key(user_id) {
        LookupView::Found(store[user_id])
    } else {
        LookupView::Missing
    }
}

/// The guard's verdict while the data store holds `store`.
pub open spec fn guard_in(store: SessionStore, user_id: int, credential: Seq<char>) -> Result<
    (),
    Denial,
> {
    guard_verdict(user_id, credential, record_in(store, user_id))
}

/// The store once a login of `user_id` has written `credential` into the
/// user's record as its session secret. Only an existing record is written.
pub open spec fn after_login(store: SessionStore, user_id: int, credential: Seq<char>) -> SessionStore {
    if store.contains_key(user_id) {
        store.insert(user_id, credential)
    } else {
        store
    }
}

/// The store once a logout of `user_id` that presented `credential` has
/// cleared the session secret in the user's record. Only the live credential
/// clears it: a logout with any other finds nothing of its own to end.
pub open spec fn after_logout(store: SessionStore, user_id: int, credential: Seq<char>) -> SessionStore {
    if store.contains_key(user_id) && store[user_id] == credential {
        store.insert(user_id, Seq::empty())
    } else {
        store
    }
}

/// A login admits the credential it issued: once user `user_id`, of whom
/// there is a record, has logged in and got `credential`, the guard lets
/// `user_id` through with it.
pub proof fn lemma_login_admits(store: SessionStore, user_id: int, credential: Seq<char>)
    requires
        user_id != 0,
        store.contains_key(user_id),
        credential.len() > 0,
    ensures
        guard_in(after_login(store, user_id, credential), user_id, credential) == Ok::<(), Denial>(()),
{
}

/// Rotation revokes: once a later login of `user_id` has put the credential
/// `newer` in place, the guard lets `newer` through and turns every other
/// credential down as `SessionInvalid`, whatever the store held before and
/// whether or not the other credential has expired. That the credentials
/// of two logins are two, the codec states where it issues them: they
/// differ wherever the time or the value drawn for them differs.
pub proof fn lemma_rotation_revokes(
    store: SessionStore,
    user_id: int,
    older: Seq<char>,
    newer: Seq<char>,
)
    requires
        user_id != 0,
        store.contains_key(user_id),
        newer.len() > 0,
        older != newer,
    ensures
        ({
            let first = after_login(store, user_id, older);
            let second = after_login(first, user_id, newer);
            &&& guard_in(second, user_id, newer) == Ok::<(), Denial>(())
            &&& guard_in(second, user_id, older) == Err::<(), Denial>(Denial::SessionInvalid)
        }),
{
}

/// The last login wins: of two logins of one user, the second leaves the
/// store as if the first had not been.
pub proof fn lemma_last_login_wins(
    store: SessionStore,
    user_id: int,
    first: Seq<char>,
    second: Seq<char>,
)
    ensures
        after_login(after_login(store, user_id, first), user_id, second) == after_login(
            store,
            user_id,
            second,
        ),
{
    assert(after_login(after_login(store, user_id, first), user_id, second) =~= after_login(
        store,
        user_id,
        second,
    ));
}

/// One live credential: while the guard lets a user through with one
/// credential, it turns the user down with every other.
pub proof fn lemma_single_session(
    store: SessionStore,
    user_id: int,
    credential: Seq<char>,
    other: Seq<char>,
)
    requires
        guard_in(store, user_id, credential) is Ok,
        other != credential,
    ensures
        guard_in(store, user_id, other) == Err::<(), Denial>(Denial::SessionInvalid),
{
}

/// Logout invalidates: once `user_id` has logged out with `credential`,
/// the guard turns `user_id` down with it, also where it let the same
/// credential through before; and where there is a record of the user, the
/// reason is `SessionInvalid`.
pub proof fn lemma_logout_invalidates(store: SessionStore, user_id: int, credential: Seq<char>)
    ensures
        guard_in(after_logout(store, user_id, credential), user_id, credential) is Err,
        user_id != 0 && store.contains_key(user_id) ==> guard_in(
            after_logout(store, user_id, credential),
            user_id,
            credential,
        ) == Err::<(), Denial>(Denial::SessionInvalid),
{
}

/// After a logout with the live credential the user has no live session:
/// the guard turns the user down whatever is presented.
pub proof fn lemma_logout_ends_session(
    store: SessionStore,
    user_id: int,
    credential: Seq<char>,
    presented: Seq<char>,
)
    requires
        guard_in(store, user_id, credential) is Ok,
    ensures
        guard_in(after_logout(store, user_id, credential), user_id, presented) == Err::<(), Denial>(
            Denial::SessionInvalid,
        ),
{
}

/// Logout is idempotent: a second one leaves the store as the first left
/// it.
pub proof fn lemma_logout_idempotent(store: SessionStore, user_id: int, credential: Seq<char>)
    ensures
        after_logout(after_logout(store, user_id, credential), user_id, credential) == after_logout(
            store,
            user_id,
            credential,
        ),
{
    assert(after_logout(after_logout(store, user_id, credential), user_id, credential)
        =~= after_logout(store, user_id, credential));
}

/// A login or logout of one user leaves the verdict on every other user as
/// it was.
pub proof fn lemma_sessions_independent(
    store: SessionStore,
    user_id: int,
    other: int,
    written: Seq<char>,
    credential: Seq<char>,
)
    requires
        user_id != other,
    ensures
        guard_in(after_login(store, user_id, written), other, credential) == guard_in(
            store,
            other,
            credential,
        ),
        guard_in(after_logout(store, user_id, written), other, credential) == guard_in(
            store,
            other,
            credential,
        ),
{
}

} // verus!
