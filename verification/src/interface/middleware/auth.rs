use crate::common::result::response::ApiErr;
use crate::infrastructure::security::identity::Identity;
use crate::interface::{auth_check, guard_verdict, Denial, Lookup};
use vstd::prelude::*;

verus! {

/// What the guard stage does first with a request.
#[derive(Debug)]
pub enum AuthStep {
    /// Answer at once: the request goes no further.
    Deny(ApiErr),
    /// Look the record of this user up, then call [`handle`].
    LookUp(i64),
}

/// Begins the guard stage: a request to which no identity is attached, or
/// the anonymous one, is answered as not authorized; for any other the
/// user's record is wanted.
pub fn begin(identity: Option<&Identity>) -> (r: AuthStep)
    ensures
        match identity {
            None => r == AuthStep::Deny(ApiErr::ErrAuth(None)),
            Some(i) => if i.spec_id() == 0 {
                r == AuthStep::Deny(ApiErr::ErrAuth(None))
            } else {
                r matches AuthStep::LookUp(id) && id == i.spec_id()
            },
        },
{
    match identity {
        None => AuthStep::Deny(ApiErr::ErrAuth(None)),
        Some(i) => {
            if i.id() == 0 {
                AuthStep::Deny(Denial::Unauthenticated.response())
            } else {
                AuthStep::LookUp(i.id())
            }
        },
    }
}

/// A request that the guard turned down: the cause, for the log, and what
/// the client is answered.
#[derive(Debug)]
pub struct Refusal {
    pub cause: Denial,
    pub answer: ApiErr,
}

/// Ends the guard stage: lets the request through where [`auth_check`]
/// does, and where it does not, names the cause and the uniform answer.
pub fn handle(identity: &Identity, record: &Lookup) -> (r: Result<(), Refusal>)
    ensures
        match guard_verdict(identity.spec_id(), identity.spec_token(), record@) {
            Ok(_) => r is Ok,
            Err(denial) => r matches Err(refusal) && refusal.cause == denial && refusal.answer
                == if denial == Denial::ServiceFailure {
                ApiErr::ErrSystem(None)
            } else {
                ApiErr::ErrAuth(None)
            },
        },
{
    match auth_check(identity, record) {
        Ok(()) => Ok(()),
        Err(denial) => Err(Refusal { cause: denial, answer: denial.response() }),
    }
}

} // verus!
