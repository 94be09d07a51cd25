use crate::application::dto::login_dto::RespLogin;
use crate::common::crypto::hash::{hex_lower, md5_digest, Crypto};
use crate::common::result::response::{ApiErr, StoreFailure};
use crate::common::xtime::unix_now;
use crate::common::utils::nonce;
use crate::infrastructure::security::identity::{
    secret_admits, AuthError, Codec, Credential, Identity, SessionSecret, NONCE_LENGTH,
    TOKEN_LIFETIME_SECS,
};
use crate::interface::{after_login, guard_in, Denial, SessionStore};
use vstd::prelude::*;

verus! {

/// What the login flow reads of a user's record.
#[derive(Debug)]
pub struct UserRecord {
    pub employee_id: i64,
    pub realname: String,
    /// The MD5 digest of the password, in hexadecimal.
    pub login_pwd: String,
}

/// A change to the session secret in a user's record, for the data store to
/// make.
#[derive(Debug)]
pub enum SessionWrite {
    /// Put `secret` in the place of whatever the record of `user_id` holds,
    /// and note `login_at` as the time of the login.
    Open { user_id: i64, secret: SessionSecret, login_at: i64 },
    /// Clear the secret in the record of `user_id`, if it is the secret of
    /// the credential `presented`.
    Close { user_id: i64, presented: Credential },
}

impl SessionWrite {
    /// The store once this change was made. A change to a record that does
    /// not exist changes nothing.
    pub open spec fn applied(&self, store: SessionStore) -> SessionStore {
        match self {
            SessionWrite::Open { user_id, secret, login_at } => crate::interface::after_login(
                store,
                *user_id as int,
                secret@,
            ),
            SessionWrite::Close { user_id, presented } => crate::interface::after_logout(
                store,
                *user_id as int,
                presented@,
            ),
        }
    }
}

/// Opening a session rotates the secret: once the change that a login asks
/// for was made, the guard lets the user through with the credential of
/// that login and with no other, whatever the record held before.
pub proof fn lemma_open_rotates(store: SessionStore, change: SessionWrite, presented: Seq<char>)
    requires
        change matches SessionWrite::Open { user_id, secret, .. } && user_id != 0
            && store.contains_key(user_id as int) && secret@.len() > 0,
    ensures
        change matches SessionWrite::Open { user_id, secret, .. } && (guard_in(
            change.applied(store),
            user_id as int,
            presented,
        ) == if presented == secret@ {
            Ok::<(), Denial>(())
        } else {
            Err::<(), Denial>(Denial::SessionInvalid)
        }),
{
}

/// A second login revokes the first: where a user has logged in twice, and
/// the two logins differ in their time or in the value drawn for them, the
/// guard lets the user through with the credential of the second login and
/// turns the credential of the first down as `SessionInvalid`, expired or
/// not. What is asked of the second credential is what issuing states of
/// it: it is not empty, and it is the credential of its own login only.
pub proof fn lemma_second_login_revokes_first(
    codec: Codec,
    store: SessionStore,
    user_id: i64,
    first_at: i64,
    first_nonce: Seq<char>,
    second_at: i64,
    second_nonce: Seq<char>,
)
    requires
        user_id != 0,
        store.contains_key(user_id as int),
        first_at + TOKEN_LIFETIME_SECS <= i64::MAX,
        second_at + TOKEN_LIFETIME_SECS <= i64::MAX,
        first_at != second_at || first_nonce != second_nonce,
        codec.credential_for(user_id as int, second_at as int, second_nonce).len() > 0,
        codec.unique_to(
            codec.credential_for(user_id as int, second_at as int, second_nonce),
            user_id as int,
            second_at as int,
            second_nonce,
        ),
    ensures
        ({
            let older = codec.credential_for(user_id as int, first_at as int, first_nonce);
            let newer = codec.credential_for(user_id as int, second_at as int, second_nonce);
            let after = after_login(after_login(store, user_id as int, older), user_id as int, newer);
            &&& older != newer
            &&& guard_in(after, user_id as int, newer) == Ok::<(), Denial>(())
            &&& guard_in(after, user_id as int, older) == Err::<(), Denial>(Denial::SessionInvalid)
        }),
{
    let older = codec.credential_for(user_id as int, first_at as int, first_nonce);
    let newer = codec.credential_for(user_id as int, second_at as int, second_nonce);
    if older == newer {
        assert(newer == codec.credential_for(user_id as int, first_at as int, first_nonce));
    }
}

/// Closing a session invalidates its credential: once the change that a
/// logout asks for was made, the guard turns the user down with the
/// credential that was presented for the logout.
pub proof fn lemma_close_invalidates(store: SessionStore, change: SessionWrite)
    requires
        change is Close,
    ensures
        change matches SessionWrite::Close { user_id, presented } && guard_in(
            change.applied(store),
            user_id as int,
            presented@,
        ) is Err,
{
}

/// Where a login stands between two calls of the data store.
#[derive(Debug)]
pub enum LoginState {
    /// The user's record was asked for.
    AwaitUser { password: String },
    /// The user's role was asked for.
    AwaitRole { user: UserRecord, password: String },
    /// The new session secret was handed over to be written.
    AwaitWrite { response: RespLogin },
    /// The login was answered.
    Done,
}

/// What the data store came back with.
#[derive(Debug)]
pub enum LoginEvent {
    /// The record of the user with the login name asked for.
    User(Result<Option<UserRecord>, StoreFailure>),
    /// The role of the employee asked for.
    Role(Result<Option<i64>, StoreFailure>),
    /// The write was made, or failed.
    Written(Result<(), StoreFailure>),
}

/// What is to be done next for a login.
#[derive(Debug)]
pub enum LoginAction {
    /// Fetch the record of the user with this login name.
    FindUser { username: String },
    /// Fetch the role of this employee.
    FindRole { employee_id: i64 },
    /// Make this change to the user's record.
    Write(SessionWrite),
    /// Answer the login.
    Answer(Result<RespLogin, ApiErr>),
}

/// Whether `password` is the one whose digest a record holds.
pub open spec fn password_matches(password: Seq<char>, login_pwd: Seq<char>) -> bool {
    hex_lower(md5_digest(vstd::utf8::encode_utf8(password))) == login_pwd
}

/// Whether `action` answers a login with `ErrAuth` and `message`.
pub open spec fn refuses_with(action: LoginAction, message: Seq<char>) -> bool {
    action matches LoginAction::Answer(Err(ApiErr::ErrAuth(Some(m)))) && m@ == message
}

/// Whether `action` answers a login with `ErrSystem`.
pub open spec fn fails(action: LoginAction) -> bool {
    action == LoginAction::Answer(Err(ApiErr::ErrSystem(None)))
}

/// The login and logout flows. The data store is not reached from here:
/// each function says what is to be asked of it next, and takes what came
/// back.
pub struct LoginRepository {
    codec: Codec,
}

impl LoginRepository {
    /// The codec that issues the credentials.
    pub closed spec fn codec(&self) -> Codec {
        self.codec
    }

    pub fn new(codec: Codec) -> (r: Self)
        ensures
            r.codec() == codec,
    {
        LoginRepository { codec }
    }

    /// The codec that issues the credentials, to verify them with.
    pub fn signer(&self) -> (r: &Codec)
        ensures
            *r == self.codec(),
    {
        &self.codec
    }

    /// Begins a login: the user's record is wanted.
    pub fn begin(username: String, password: String) -> (r: (LoginState, LoginAction))
        ensures
            r.0 == (LoginState::AwaitUser { password }),
            r.1 == (LoginAction::FindUser { username }),
    {
        (LoginState::AwaitUser { password }, LoginAction::FindUser { username })
    }

    /// What a login that has its user and role comes to once the credential
    /// was issued, or could not be: the credential goes to the record as
    /// the new session secret and, with the user's name and role, into the
    /// answer that waits for the write; without a credential the login
    /// fails.
    pub fn granted(user: UserRecord, role: i64, issued: Result<String, AuthError>, now: i64) -> (r: (
        LoginState,
        LoginAction,
    ))
        ensures
            match issued {
                Ok(token) => {
                    &&& r.0 == (LoginState::AwaitWrite {
                        response: RespLogin { name: user.realname, role, auth_token: token },
                    })
                    &&& r.1 matches LoginAction::Write(
                        SessionWrite::Open { user_id, secret, login_at },
                    )
                    &&& user_id == user.employee_id
                    &&& secret@ == token@
                    &&& login_at == now
                    &&& forall|c: Seq<char>|
                        token@.len() > 0 ==> (#[trigger] secret_admits(secret@, c) <==> c == token@)
                },
                Err(_) => r.0 == LoginState::Done && fails(r.1),
            },
    {
        match issued {
            Ok(token) => {
                let secret = SessionSecret::from_stored(token.as_str());
                let write = SessionWrite::Open {
                    user_id: user.employee_id,
                    secret,
                    login_at: now,
                };
                let response = RespLogin { name: user.realname, role, auth_token: token };
                (LoginState::AwaitWrite { response }, LoginAction::Write(write))
            },
            Err(_) => (LoginState::Done, LoginAction::Answer(Err(ApiErr::ErrSystem(None)))),
        }
    }

    /// Whether `r` is the step that a login in `state` takes on `event` as
    /// of `now`, with `nonce` as the value drawn for its credential.
    ///
    /// - The user's record: a failure of the store fails the login, a
    ///   missing record refuses it, a record asks for the user's role.
    /// - The role: a failure fails the login, a missing role refuses it; with
    ///   the role at hand the password is checked against the digest in the
    ///   record, a wrong one refuses the login, and for the right one a
    ///   credential is issued: it goes to the record as the new session
    ///   secret and into the answer that waits for the write. The
    ///   credential is that of this user, this time and this value, and of
    ///   no other. Only where `now + 24h` does not fit 64 bits is none
    ///   issued, and the login fails.
    /// - The write: a failure fails the login, anything else answers it.
    /// - What does not fit the state fails the login.
    pub open spec fn steps(
        &self,
        state: LoginState,
        event: LoginEvent,
        now: i64,
        nonce: Seq<char>,
        r: (LoginState, LoginAction),
    ) -> bool {
        match (state, event) {
            (LoginState::AwaitUser { password }, LoginEvent::User(Ok(Some(user)))) => {
                &&& r.0 == (LoginState::AwaitRole { user, password })
                &&& r.1 == (LoginAction::FindRole { employee_id: user.employee_id })
            },
            (LoginState::AwaitUser { password }, LoginEvent::User(Ok(None))) => {
                r.0 == LoginState::Done && refuses_with(r.1, "账号不存在"@)
            },
            (LoginState::AwaitRole { user, password }, LoginEvent::Role(Ok(Some(role)))) => {
                if !password_matches(password@, user.login_pwd@) {
                    r.0 == LoginState::Done && refuses_with(r.1, "密码错误"@)
                } else if now + TOKEN_LIFETIME_SECS > i64::MAX {
                    r.0 == LoginState::Done && fails(r.1)
                } else {
                    &&& r.0 matches LoginState::AwaitWrite { response }
                    &&& response.name == user.realname
                    &&& response.role == role
                    &&& response.auth_token@ == self.codec().credential_for(
                        user.employee_id as int,
                        now as int,
                        nonce,
                    )
                    &&& response.auth_token@.len() > 0
                    &&& self.codec().unique_to(
                        response.auth_token@,
                        user.employee_id as int,
                        now as int,
                        nonce,
                    )
                    &&& r.1 matches LoginAction::Write(
                        SessionWrite::Open { user_id, secret, login_at },
                    )
                    &&& user_id == user.employee_id
                    &&& secret@ == response.auth_token@
                    &&& login_at == now
                    &&& forall|c: Seq<char>| #[trigger]
                        secret_admits(secret@, c) <==> c == response.auth_token@
                }
            },
            (LoginState::AwaitRole { user, password }, LoginEvent::Role(Ok(None))) => {
                r.0 == LoginState::Done && refuses_with(r.1, "账号角色关系不存在"@)
            },
            (LoginState::AwaitWrite { response }, LoginEvent::Written(Ok(_))) => {
                r.0 == LoginState::Done && r.1 == LoginAction::Answer(Ok(response))
            },
            _ => r.0 == LoginState::Done && fails(r.1),
        }
    }

    /// Takes a login one step on, as of `now` and with `nonce` as the value
    /// drawn for its credential: the step that [`LoginRepository::steps`]
    /// describes.
    pub fn login_at(&self, state: LoginState, event: LoginEvent, now: i64, nonce: &str) -> (r: (
        LoginState,
        LoginAction,
    ))
        ensures
            self.steps(state, event, now, nonce@, r),
    {
        match (state, event) {
            (LoginState::AwaitUser { password }, LoginEvent::User(Ok(Some(user)))) => {
                let employee_id = user.employee_id;
                (LoginState::AwaitRole { user, password }, LoginAction::FindRole { employee_id })
            },
            (LoginState::AwaitUser { .. }, LoginEvent::User(Ok(None))) => (
                LoginState::Done,
                LoginAction::Answer(Err(ApiErr::ErrAuth(Some("账号不存在".to_owned())))),
            ),
            (LoginState::AwaitRole { user, password }, LoginEvent::Role(Ok(Some(role)))) => {
                if Crypto::md5(password.as_str().as_bytes()) != user.login_pwd {
                    return (
                        LoginState::Done,
                        LoginAction::Answer(Err(ApiErr::ErrAuth(Some("密码错误".to_owned())))),
                    );
                }
                let issued = self.codec.issue_at(user.employee_id, now, nonce);
                Self::granted(user, role, issued, now)
            },
            (LoginState::AwaitRole { .. }, LoginEvent::Role(Ok(None))) => (
                LoginState::Done,
                LoginAction::Answer(Err(ApiErr::ErrAuth(Some("账号角色关系不存在".to_owned())))),
            ),
            (LoginState::AwaitWrite { response }, LoginEvent::Written(Ok(()))) => (
                LoginState::Done,
                LoginAction::Answer(Ok(response)),
            ),
            _ => (LoginState::Done, LoginAction::Answer(Err(ApiErr::ErrSystem(None)))),
        }
    }

    /// Takes a login one step on, as of the clock's reading and with a
    /// value of [`NONCE_LENGTH`] letters and digits drawn at random: the
    /// step that [`LoginRepository::steps`] describes for some time and
    /// some such value. A step that opens a session opens it for the
    /// credential in the answer that waits, and for no other.
    pub fn login(&self, state: LoginState, event: LoginEvent) -> (r: (LoginState, LoginAction))
        ensures
            exists|now: i64, drawn: Seq<char>|
                drawn.len() == NONCE_LENGTH && #[trigger] self.steps(state, event, now, drawn, r),
            r.1 matches LoginAction::Write(w) ==> (w matches SessionWrite::Open { secret, .. }
                && r.0 matches LoginState::AwaitWrite { response } && secret@
                == response.auth_token@ && forall|c: Seq<char>| #[trigger]
                secret_admits(secret@, c) <==> c == response.auth_token@),
            r.1 is Answer ==> r.0 == LoginState::Done,
    {
        let now = unix_now();
        let drawn = nonce(NONCE_LENGTH);
        let ghost before = (state, event);
        let r = self.login_at(state, event, now, drawn.as_str());
        assert(drawn@.len() == NONCE_LENGTH && self.steps(before.0, before.1, now, drawn@, r));
        r
    }

    /// The change that a logout of `identity` asks for: the session that
    /// was opened for the credential it carries is closed.
    pub fn logout(identity: &Identity) -> (r: SessionWrite)
        ensures
            r matches SessionWrite::Close { user_id, presented } && user_id == identity.spec_id()
                && presented@ == identity.spec_token(),
    {
        SessionWrite::Close {
            user_id: identity.id(),
            presented: Credential::new(identity.credential().as_str()),
        }
    }
}

} // verus!
