use crate::common::result::response::{checked, complaint_of, first_of, require_text, ApiErr};
use crate::common::xtime::{display_time, shown_time};
use vstd::prelude::*;

verus! {

/// A request to add an employee.
#[derive(Debug)]
pub struct ReqCreate {
    pub realname: String,
    pub phone: String,
    pub department_id: i64,
    pub login_name: String,
    pub email: String,
    pub gender: u8,
    pub disabled_flag: u8,
    pub position_id: i64,
}

impl ReqCreate {
    /// The complaint that checking this request makes, if it makes one:
    /// the one about the first required member that is empty.
    pub open spec fn complaint(&self) -> Option<Seq<char>> {
        first_of(complaint_of(self.realname@, "员工姓名必填"@), first_of(complaint_of(self.phone@, "手机号码必填"@), first_of(complaint_of(self.login_name@, "登录名必填"@), complaint_of(self.email@, "邮箱必填"@))))
    }

    /// Checks the request: it is answered with `ErrParams` and the
    /// complaint where one is made.
    pub fn validate(&self) -> (r: Result<(), ApiErr>)
        ensures
            checked(self.complaint(), r),
    {
        match require_text(self.realname.as_str(), "员工姓名必填") {
            Err(e) => {
                return Err(e);
            },
            Ok(()) => {},
        }
        match require_text(self.phone.as_str(), "手机号码必填") {
            Err(e) => {
                return Err(e);
            },
            Ok(()) => {},
        }
        match require_text(self.login_name.as_str(), "登录名必填") {
            Err(e) => {
                return Err(e);
            },
            Ok(()) => {},
        }
        require_text(self.email.as_str(), "邮箱必填")
    }
}

/// An employee as it is shown.
#[derive(Debug)]
pub struct RespInfo {
    pub employee_id: i64,
    pub realname: String,
    pub phone: String,
    pub department_id: i64,
    pub login_name: String,
    pub email: String,
    pub gender: u8,
    pub disabled_flag: u8,
    pub position_id: i64,
    pub create_time: i64,
    pub create_time_str: String,
}

impl RespInfo {
    /// Shows a stored employee: its columns as they are, and the time it
    /// was made as text.
    pub fn from_row(
        employee_id: i64,
        realname: String,
        phone: String,
        department_id: i64,
        login_name: String,
        email: String,
        gender: u8,
        disabled_flag: u8,
        position_id: i64,
        create_time: i64,
    ) -> (r: Self)
        ensures
            r.employee_id == employee_id,
            r.realname == realname,
            r.phone == phone,
            r.department_id == department_id,
            r.login_name == login_name,
            r.email == email,
            r.gender == gender,
            r.disabled_flag == disabled_flag,
            r.position_id == position_id,
            r.create_time == create_time,
            r.create_time_str@ == shown_time(create_time as int),
    {
        RespInfo {
            employee_id,
            realname,
            phone,
            department_id,
            login_name,
            email,
            gender,
            disabled_flag,
            position_id,
            create_time,
            create_time_str: display_time(create_time),
        }
    }
}

/// One page of employees, with the number of all of them where it was
/// counted.
#[derive(Debug)]
pub struct RespList {
    pub total: i64,
    pub list: Vec<RespInfo>,
}

/// A request to change an employee.
#[derive(Debug)]
pub struct UpdateInfo {
    pub employee_id: i64,
    pub realname: String,
    pub phone: String,
    pub department_id: i64,
    pub login_name: String,
    pub email: String,
    pub gender: u8,
    pub disabled_flag: u8,
    pub position_id: i64,
}

impl UpdateInfo {
    /// The complaint that checking this request makes, if it makes one:
    /// the one about the first required member that is empty.
    pub open spec fn complaint(&self) -> Option<Seq<char>> {
        first_of(complaint_of(self.realname@, "员工姓名必填"@), first_of(complaint_of(self.phone@, "手机号码必填"@), first_of(complaint_of(self.login_name@, "登录名必填"@), complaint_of(self.email@, "邮箱必填"@))))
    }

    /// Checks the request: it is answered with `ErrParams` and the
    /// complaint where one is made.
    pub fn validate(&self) -> (r: Result<(), ApiErr>)
        ensures
            checked(self.complaint(), r),
    {
        match require_text(self.realname.as_str(), "员工姓名必填") {
            Err(e) => {
                return Err(e);
            },
            Ok(()) => {},
        }
        match require_text(self.phone.as_str(), "手机号码必填") {
            Err(e) => {
                return Err(e);
            },
            Ok(()) => {},
        }
        match require_text(self.login_name.as_str(), "登录名必填") {
            Err(e) => {
                return Err(e);
            },
            Ok(()) => {},
        }
        require_text(self.email.as_str(), "邮箱必填")
    }
}

/// What the employee picker needs of an employee.
#[derive(Debug, Clone)]
pub struct RespEmpInfo {
    pub employee_id: i64,
    pub realname: String,
    pub department_id: i64,
}

/// What the employee picker needs of a department.
#[derive(Debug, Clone)]
pub struct RespDeptInfo {
    pub department_id: i64,
    pub department_name: String,
}

/// One entry of the employee picker: an employee with the name of the
/// department it belongs to.
#[derive(Debug, Clone)]
pub struct RespSelectOption {
    pub employee_id: i64,
    pub realname: String,
    pub department_id: i64,
    pub department_name: String,
}

} // verus!
