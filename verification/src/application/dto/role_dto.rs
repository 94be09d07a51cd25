use crate::common::result::response::{checked, complaint_of, first_of, require_text, ApiErr};
use crate::common::xtime::{display_time, shown_time};
use vstd::prelude::*;

verus! {

/// A request to add a role.
#[derive(Debug)]
pub struct ReqCreate {
    pub rolename: String,
    pub rolecode: String,
    pub remark: String,
}

impl ReqCreate {
    /// The complaint that checking this request makes, if it makes one:
    /// the one about the first required member that is empty.
    pub open spec fn complaint(&self) -> Option<Seq<char>> {
        first_of(complaint_of(self.rolename@, "角色名称必填"@), complaint_of(self.rolecode@, "角色编码必填"@))
    }

    /// Checks the request: it is answered with `ErrParams` and the
    /// complaint where one is made.
    pub fn validate(&self) -> (r: Result<(), ApiErr>)
        ensures
            checked(self.complaint(), r),
    {
        match require_text(self.rolename.as_str(), "角色名称必填") {
            Err(e) => {
                return Err(e);
            },
            Ok(()) => {},
        }
        require_text(self.rolecode.as_str(), "角色编码必填")
    }
}

/// A role as it is shown.
#[derive(Debug)]
pub struct RespInfo {
    pub roleid: i64,
    pub rolename: String,
    pub rolecode: String,
    pub remark: String,
    pub create_time: i64,
    pub create_time_str: String,
}

impl RespInfo {
    /// Shows a stored role: its columns as they are, and the time it was
    /// made as text.
    pub fn from_row(
        roleid: i64,
        rolename: String,
        rolecode: String,
        remark: String,
        create_time: i64,
    ) -> (r: Self)
        ensures
            r.roleid == roleid,
            r.rolename == rolename,
            r.rolecode == rolecode,
            r.remark == remark,
            r.create_time == create_time,
            r.create_time_str@ == shown_time(create_time as int),
    {
        RespInfo {
            roleid,
            rolename,
            rolecode,
            remark,
            create_time,
            create_time_str: display_time(create_time),
        }
    }
}

/// One page of roles, with the number of all of them where it was counted.
#[derive(Debug)]
pub struct RespList {
    pub total: i64,
    pub list: Vec<RespInfo>,
}

/// A request to change a role.
#[derive(Debug)]
pub struct UpdateInfo {
    pub roleid: i64,
    pub rolename: String,
    pub rolecode: String,
    pub remark: String,
    pub create_time: i64,
    pub create_time_str: String,
}

impl UpdateInfo {
    /// The complaint that checking this request makes, if it makes one:
    /// the one about the first required member that is empty.
    pub open spec fn complaint(&self) -> Option<Seq<char>> {
        first_of(complaint_of(self.rolename@, "角色名称必填"@), complaint_of(self.rolecode@, "角色编码必填"@))
    }

    /// Checks the request: it is answered with `ErrParams` and the
    /// complaint where one is made.
    pub fn validate(&self) -> (r: Result<(), ApiErr>)
        ensures
            checked(self.complaint(), r),
    {
        match require_text(self.rolename.as_str(), "角色名称必填") {
            Err(e) => {
                return Err(e);
            },
            Ok(()) => {},
        }
        require_text(self.rolecode.as_str(), "角色编码必填")
    }
}

/// One entry of the role picker.
#[derive(Debug)]
pub struct RespSelect {
    pub roleid: i64,
    pub rolename: String,
}

/// An employee as the listing of a role's members shows it.
#[derive(Debug)]
pub struct RespEmpInfo {
    pub employee_id: i64,
    pub realname: String,
    pub phone: String,
    pub department_id: i64,
    pub login_name: String,
    pub email: String,
    pub gender: u8,
    pub disabled_flag: u8,
    pub position_id: i64,
    pub create_time: i64,
    pub create_time_str: String,
}

impl RespEmpInfo {
    /// Shows a stored employee: its columns as they are, and the time it
    /// was made as text.
    pub fn from_row(
        employee_id: i64,
        realname: String,
        phone: String,
        department_id: i64,
        login_name: String,
        email: String,
        gender: u8,
        disabled_flag: u8,
        position_id: i64,
        create_time: i64,
    ) -> (r: Self)
        ensures
            r.employee_id == employee_id,
            r.realname == realname,
            r.phone == phone,
            r.department_id == department_id,
            r.login_name == login_name,
            r.email == email,
            r.gender == gender,
            r.disabled_flag == disabled_flag,
            r.position_id == position_id,
            r.create_time == create_time,
            r.create_time_str@ == shown_time(create_time as int),
    {
        RespEmpInfo {
            employee_id,
            realname,
            phone,
            department_id,
            login_name,
            email,
            gender,
            disabled_flag,
            position_id,
            create_time,
            create_time_str: display_time(create_time),
        }
    }
}

/// One page of a role's members, with the number of all of them where it
/// was counted.
#[derive(Debug)]
pub struct RespEmpList {
    pub total: i64,
    pub list: Vec<RespEmpInfo>,
}

/// One entry of the menu picker.
#[derive(Debug)]
pub struct RespMenuSelect {
    pub menu_id: i64,
    pub menu_name: String,
    pub parent_id: i64,
}

/// A menu entry that a role may reach.
#[derive(Debug)]
pub struct RespRoleMenu {
    pub role_id: i64,
    pub menu_id: i64,
}

} // verus!
