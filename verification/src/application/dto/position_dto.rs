use crate::common::result::response::{checked, complaint_of, require_text, ApiErr};
use crate::common::xtime::{display_time, shown_time};
use vstd::prelude::*;

verus! {

/// A request to add a position.
#[derive(Debug)]
pub struct ReqCreate {
    pub postname: String,
    pub level: String,
    pub sort: i64,
    pub remark: String,
}

impl ReqCreate {
    /// The complaint that checking this request makes, if it makes one:
    /// the one about the required member, where it is empty.
    pub open spec fn complaint(&self) -> Option<Seq<char>> {
        complaint_of(self.postname@, "职务名称必填"@)
    }

    /// Checks the request: it is answered with `ErrParams` and the
    /// complaint where one is made.
    pub fn validate(&self) -> (r: Result<(), ApiErr>)
        ensures
            checked(self.complaint(), r),
    {
        require_text(self.postname.as_str(), "职务名称必填")
    }
}

/// A position as it is shown.
#[derive(Debug)]
pub struct RespInfo {
    pub postid: i64,
    pub postname: String,
    pub level: String,
    pub sort: i64,
    pub remark: String,
    pub create_time: i64,
    pub create_time_str: String,
}

impl RespInfo {
    /// Shows a stored position: its columns as they are, and the time it
    /// was made as text.
    pub fn from_row(
        postid: i64,
        postname: String,
        level: String,
        sort: i64,
        remark: String,
        create_time: i64,
    ) -> (r: Self)
        ensures
            r.postid == postid,
            r.postname == postname,
            r.level == level,
            r.sort == sort,
            r.remark == remark,
            r.create_time == create_time,
            r.create_time_str@ == shown_time(create_time as int),
    {
        RespInfo {
            postid,
            postname,
            level,
            sort,
            remark,
            create_time,
            create_time_str: display_time(create_time),
        }
    }
}

/// One page of positions, with the number of all of them where it was
/// counted.
#[derive(Debug)]
pub struct RespList {
    pub total: i64,
    pub list: Vec<RespInfo>,
}

/// A request to change a position.
#[derive(Debug)]
pub struct UpdateInfo {
    pub postid: i64,
    pub postname: String,
    pub level: String,
    pub sort: i64,
    pub remark: String,
    pub create_time: i64,
    pub create_time_str: String,
}

impl UpdateInfo {
    /// The complaint that checking this request makes, if it makes one:
    /// the one about the required member, where it is empty.
    pub open spec fn complaint(&self) -> Option<Seq<char>> {
        complaint_of(self.postname@, "角色名称必填"@)
    }

    /// Checks the request: it is answered with `ErrParams` and the
    /// complaint where one is made.
    pub fn validate(&self) -> (r: Result<(), ApiErr>)
        ensures
            checked(self.complaint(), r),
    {
        require_text(self.postname.as_str(), "角色名称必填")
    }
}

/// One entry of the position picker.
#[derive(Debug)]
pub struct RespSelect {
    pub postid: i64,
    pub postname: String,
}

} // verus!
