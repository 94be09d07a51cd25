use crate::application::dto::login_dto::ReqLogin;
use crate::common::result::response::{checked, ApiErr};
use crate::infrastructure::repository::login_repository::{LoginRepository, SessionWrite};
use crate::infrastructure::security::identity::Identity;
use vstd::prelude::*;

verus! {

/// What the handlers for login and logout decide before the service is
/// called.
#[derive(Debug, Clone, Copy)]
pub struct LoginController;

impl LoginController {
    pub fn new() -> Self {
        LoginController
    }

    /// Whether a login may go on to the service: one without a user name or
    /// without a password is answered with `ErrParams` and the complaint.
    pub fn login(req: &ReqLogin) -> (r: Result<(), ApiErr>)
        ensures
            checked(req.complaint(), r),
    {
        req.validate()
    }

    /// What a logout asks of the data store: nothing for the anonymous
    /// identity, which is answered as done at once; for any other, to close
    /// the session of the credential it carries.
    pub fn logout(identity: &Identity) -> (r: Option<SessionWrite>)
        ensures
            identity.spec_id() == 0 ==> r is None,
            identity.spec_id() != 0 ==> (r matches Some(SessionWrite::Close { user_id, presented })
                && user_id == identity.spec_id() && presented@ == identity.spec_token()),
    {
        if identity.id() == 0 {
            None
        } else {
            Some(LoginRepository::logout(identity))
        }
    }
}

} // verus!
