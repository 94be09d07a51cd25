use crate::common::result::response::{checked, complaint_of, require_text, ApiErr};
use crate::common::xtime::{display_time, shown_time};
use vstd::prelude::*;

verus! {

/// A request to add a department.
#[derive(Debug)]
pub struct ReqCreate {
    pub deptname: String,
    pub sort: i32,
    pub managerid: i64,
    pub parentid: i64,
}

impl ReqCreate {
    /// The complaint that checking this request makes, if it makes one:
    /// the one about the required member, where it is empty.
    pub open spec fn complaint(&self) -> Option<Seq<char>> {
        complaint_of(self.deptname@, "部门名称必填"@)
    }

    /// Checks the request: it is answered with `ErrParams` and the
    /// complaint where one is made.
    pub fn validate(&self) -> (r: Result<(), ApiErr>)
        ensures
            checked(self.complaint(), r),
    {
        require_text(self.deptname.as_str(), "部门名称必填")
    }
}

/// One entry of the department picker.
#[derive(Debug)]
pub struct RespSelect {
    pub department_id: i64,
    pub department_name: String,
    pub parent_id: i64,
}

/// A department as it is shown.
#[derive(Debug)]
pub struct RespInfo {
    pub department_id: i64,
    pub department_name: String,
    pub manager_id: i64,
    pub parent_id: i64,
    pub sort: i32,
    pub create_time: i64,
    pub create_time_str: String,
}

impl RespInfo {
    /// Shows a stored department: its columns as they are, and the time it
    /// was made as text.
    pub fn from_row(
        department_id: i64,
        department_name: String,
        manager_id: i64,
        parent_id: i64,
        sort: i32,
        create_time: i64,
    ) -> (r: Self)
        ensures
            r.department_id == department_id,
            r.department_name == department_name,
            r.manager_id == manager_id,
            r.parent_id == parent_id,
            r.sort == sort,
            r.create_time == create_time,
            r.create_time_str@ == shown_time(create_time as int),
    {
        RespInfo {
            department_id,
            department_name,
            manager_id,
            parent_id,
            sort,
            create_time,
            create_time_str: display_time(create_time),
        }
    }
}

/// One page of departments, with the number of all of them where it was
/// counted.
#[derive(Debug)]
pub struct RespList {
    pub total: i64,
    pub list: Vec<RespInfo>,
}

/// A request to change a department.
#[derive(Debug)]
pub struct UpdateInfo {
    pub deptid: i64,
    pub deptname: String,
    pub sort: i32,
    pub managerid: i64,
    pub parentid: i64,
    pub create_time: i64,
    pub create_time_str: String,
}

impl UpdateInfo {
    /// The complaint that checking this request makes, if it makes one:
    /// the one about the required member, where it is empty.
    pub open spec fn complaint(&self) -> Option<Seq<char>> {
        complaint_of(self.deptname@, "部门名称必填"@)
    }

    /// Checks the request: it is answered with `ErrParams` and the
    /// complaint where one is made.
    pub fn validate(&self) -> (r: Result<(), ApiErr>)
        ensures
            checked(self.complaint(), r),
    {
        require_text(self.deptname.as_str(), "部门名称必填")
    }
}

} // verus!
