use crate::common::result::response::{checked, complaint_of, first_of, require_text, ApiErr};
use vstd::prelude::*;

verus! {

/// A request to log in.
#[derive(Debug)]
pub struct ReqLogin {
    pub username: String,
    pub password: String,
}

impl ReqLogin {
    /// The complaint that checking this request makes, if it makes one:
    /// the one about the first required member that is empty.
    pub open spec fn complaint(&self) -> Option<Seq<char>> {
        first_of(complaint_of(self.username@, "用户名必填"@), complaint_of(self.password@, "密码必填"@))
    }

    /// Checks the request: it is answered with `ErrParams` and the
    /// complaint where one is made.
    pub fn validate(&self) -> (r: Result<(), ApiErr>)
        ensures
            checked(self.complaint(), r),
    {
        match require_text(self.username.as_str(), "用户名必填") {
            Err(e) => {
                return Err(e);
            },
            Ok(()) => {},
        }
        require_text(self.password.as_str(), "密码必填")
    }
}

/// The answer to a successful login.
#[derive(Debug)]
pub struct RespLogin {
    pub name: String,
    pub role: i64,
    /// The credential to present as `Authorization: Bearer <credential>`.
    pub auth_token: String,
}

} // verus!
