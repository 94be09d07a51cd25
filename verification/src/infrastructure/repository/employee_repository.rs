use crate::application::dto::employee_dto::{
    RespDeptInfo, RespEmpInfo, RespInfo, RespList, RespSelectOption,
};
use crate::common::crypto::hash::{hex_lower, md5_digest, Crypto};
use crate::common::result::response::{fetched, require_none, ApiErr, StoreFailure};
use crate::common::utils::{query_filter, query_get, query_text, query_value};
use crate::common::xtime::shown_time;
use std::collections::HashMap;
use vstd::prelude::*;

verus! {

broadcast use vstd::std_specs::hash::group_hash_axioms;

/// The password that a reset gives an employee.
pub const RESET_PASSWORD: &'static str = "123456";

/// What the listings read of a stored employee.
#[derive(Debug)]
pub struct EmployeeRow {
    pub employee_id: i64,
    pub login_name: String,
    pub realname: String,
    pub phone: String,
    pub email: String,
    pub gender: u8,
    pub disabled_flag: u8,
    pub position_id: i64,
    pub department_id: i64,
    pub create_time: i64,
}

/// Whether `info` shows `row`: every column as it is, and the time it was
/// made as text.
pub open spec fn shows(info: RespInfo, row: EmployeeRow) -> bool {
    &&& info.employee_id == row.employee_id
    &&& info.login_name == row.login_name
    &&& info.realname == row.realname
    &&& info.phone == row.phone
    &&& info.email == row.email
    &&& info.gender == row.gender
    &&& info.disabled_flag == row.disabled_flag
    &&& info.position_id == row.position_id
    &&& info.department_id == row.department_id
    &&& info.create_time == row.create_time
    &&& info.create_time_str@ == shown_time(row.create_time as int)
}

/// The name of the department `department_id` in a list of departments:
/// that of the last entry with this id, as in a map filled entry by entry.
pub open spec fn department_name(departments: Seq<RespDeptInfo>, department_id: i64) -> Option<
    Seq<char>,
>
    decreases departments.len(),
{
    if departments.len() == 0 {
        None
    } else if departments.last().department_id == department_id {
        Some(departments.last().department_name@)
    } else {
        department_name(departments.drop_last(), department_id)
    }
}

/// The value of a picker entry: employee id, name, department id and
/// department name.
pub open spec fn option_view(option: RespSelectOption) -> (int, Seq<char>, int, Seq<char>) {
    (
        option.employee_id as int,
        option.realname@,
        option.department_id as int,
        option.department_name@,
    )
}

/// The values of a list of picker entries.
pub open spec fn option_views(options: Seq<RespSelectOption>) -> Seq<
    (int, Seq<char>, int, Seq<char>),
> {
    Seq::new(options.len(), |i: int| option_view(options[i]))
}

/// The entries of the employee picker: the employees whose department is
/// in the list of departments, in their order, each with the name of its
/// department.
pub open spec fn merged(employees: Seq<RespEmpInfo>, departments: Seq<RespDeptInfo>) -> Seq<
    (int, Seq<char>, int, Seq<char>),
>
    decreases employees.len(),
{
    if employees.len() == 0 {
        Seq::empty()
    } else {
        let before = merged(employees.drop_last(), departments);
        let employee = employees.last();
        match department_name(departments, employee.department_id) {
            Some(name) => before.push(
                (
                    employee.employee_id as int,
                    employee.realname@,
                    employee.department_id as int,
                    name,
                ),
            ),
            None => before,
        }
    }
}

/// The filter on the flag `disabled_flag` that a query asks for: none
/// where the query does not name the flag, 1 where it names `1`, and 0
/// where it names anything else.
pub open spec fn disabled_filter(query: Seq<(String, String)>) -> Option<u8> {
    match query_value(query, "disabled_flag"@) {
        Some(v) => if v == "1"@ {
            Some(1u8)
        } else {
            Some(0u8)
        },
        None => None,
    }
}

/// What the employee handlers decide between two calls of the data store.
#[derive(Debug, Clone, Copy)]
pub struct EmployeeRepository;

impl EmployeeRepository {
    pub fn new() -> Self {
        EmployeeRepository
    }

    /// Whether an employee may be added, given how many employees have its
    /// login name already.
    pub fn create(same_login_name: u64) -> (r: Result<(), ApiErr>)
        ensures
            same_login_name == 0 ==> r is Ok,
            same_login_name > 0 ==> (r matches Err(ApiErr::ErrPerm(Some(m))) && m@
                == "登录名已重复"@),
    {
        require_none(same_login_name, "登录名已重复")
    }

    /// Whether an employee with a free login name may be added, given how
    /// many employees have its phone number already.
    pub fn create_phone(same_phone: u64) -> (r: Result<(), ApiErr>)
        ensures
            same_phone == 0 ==> r is Ok,
            same_phone > 0 ==> (r matches Err(ApiErr::ErrPerm(Some(m))) && m@ == "手机号码已重复"@),
    {
        require_none(same_phone, "手机号码已重复")
    }

    /// The digest stored as the password of a new employee: that of its
    /// login name.
    pub fn initial_password(login_name: &str) -> (r: String)
        ensures
            r@ == hex_lower(md5_digest(vstd::utf8::encode_utf8(login_name@))),
    {
        Crypto::md5(login_name.as_bytes())
    }

    /// The digest stored as the password after a reset: that of
    /// [`RESET_PASSWORD`].
    pub fn reset_password() -> (r: String)
        ensures
            r@ == hex_lower(md5_digest(vstd::utf8::encode_utf8(RESET_PASSWORD@))),
    {
        Crypto::md5(RESET_PASSWORD.as_bytes())
    }

    /// Whether an employee may be changed, given how many employees have
    /// its login name or its phone number.
    pub fn update(same_login_or_phone: u64) -> (r: Result<(), ApiErr>)
        ensures
            same_login_or_phone == 0 ==> r is Ok,
            same_login_or_phone > 0 ==> (r matches Err(ApiErr::ErrPerm(Some(m))) && m@
                == "登录名称或手机号码重复"@),
    {
        require_none(same_login_or_phone, "登录名称或手机号码重复")
    }

    /// The flag that the listing is filtered by, where the query names one.
    pub fn list_disabled(query: &Vec<(String, String)>) -> (r: Option<u8>)
        ensures
            r == disabled_filter(query@),
    {
        match query_get(query, "disabled_flag") {
            Some(v) => {
                if *v == "1".to_owned() {
                    Some(1)
                } else {
                    Some(0)
                }
            },
            None => None,
        }
    }

    /// The text that the listing is filtered by in the column `key`: that
    /// of the query's member `key`, where it has one that is not empty.
    pub fn list_filter<'a>(query: &'a Vec<(String, String)>, key: &str) -> (r: Option<&'a String>)
        ensures
            match query_text(query@, key@) {
                Some(v) => r matches Some(s) && s@ == v,
                None => r is None,
            },
    {
        query_filter(query, key)
    }

    /// One page of the listing: the rows as they are shown, in the order in
    /// which they were fetched, with the number of all rows.
    pub fn list(total: i64, rows: Vec<EmployeeRow>) -> (r: RespList)
        ensures
            r.total == total,
            r.list@.len() == rows@.len(),
            forall|i: int| 0 <= i < rows@.len() ==> shows(#[trigger] r.list@[i], rows@[i]),
    {
        let mut list: Vec<RespInfo> = Vec::new();
        let mut i: usize = 0;
        while i < rows.len()
            invariant
                i <= rows.len(),
                list@.len() == i,
                forall|k: int| 0 <= k < i ==> shows(#[trigger] list@[k], rows@[k]),
            decreases rows.len() - i,
        {
            let info = RespInfo::from_row(
                rows[i].employee_id,
                rows[i].realname.clone(),
                rows[i].phone.clone(),
                rows[i].department_id,
                rows[i].login_name.clone(),
                rows[i].email.clone(),
                rows[i].gender,
                rows[i].disabled_flag,
                rows[i].position_id,
                rows[i].create_time,
            );
            list.push(info);
            i += 1;
        }
        RespList { total, list }
    }

    /// The employee to show, or the answer where there is none.
    pub fn info(row: Result<Option<EmployeeRow>, StoreFailure>) -> (r: Result<RespInfo, ApiErr>)
        ensures
            match row {
                Ok(Some(found)) => r matches Ok(info) && shows(info, found),
                Ok(None) => r matches Err(ApiErr::ErrNotFound(Some(m))) && m@ == "员工信息不存在"@,
                Err(_) => r == Err::<RespInfo, ApiErr>(ApiErr::ErrSystem(None)),
            },
    {
        match fetched(row, ApiErr::ErrNotFound(Some("员工信息不存在".to_owned()))) {
            Ok(found) => Ok(
                RespInfo::from_row(
                    found.employee_id,
                    found.realname,
                    found.phone,
                    found.department_id,
                    found.login_name,
                    found.email,
                    found.gender,
                    found.disabled_flag,
                    found.position_id,
                    found.create_time,
                ),
            ),
            Err(e) => Err(e),
        }
    }

    /// Joins the employees with the names of their departments: an
    /// employee whose department is not in the list is left out.
    pub fn merge_employee_department(
        employee_list: Vec<RespEmpInfo>,
        department_list: Vec<RespDeptInfo>,
    ) -> (r: Vec<RespSelectOption>)
        ensures
            option_views(r@) == merged(employee_list@, department_list@),
    {
        let mut names: HashMap<i64, String> = HashMap::new();
        let mut d: usize = 0;
        while d < department_list.len()
            invariant
                d <= department_list.len(),
                forall|id: i64|
                    match #[trigger] department_name(department_list@.take(d as int), id) {
                        Some(name) => names@.contains_key(id) && names@[id]@ == name,
                        None => !names@.contains_key(id),
                    },
            decreases department_list.len() - d,
        {
            let ghost before = department_list@.take(d as int);
            let ghost after = department_list@.take(d + 1);
            proof {
                assert(after.drop_last() =~= before);
                assert(after.last() == department_list@[d as int]);
            }
            let ghost known = names@;
            names.insert(
                department_list[d].department_id,
                department_list[d].department_name.clone(),
            );
            proof {
                assert forall|id: i64|
                    match #[trigger] department_name(after, id) {
                        Some(name) => names@.contains_key(id) && names@[id]@ == name,
                        None => !names@.contains_key(id),
                    } by {
                    if id != department_list@[d as int].department_id {
                        assert(department_name(after, id) == department_name(before, id));
                        assert(names@.contains_key(id) == known.contains_key(id));
                    }
                }
            }
            d += 1;
        }
        assert(department_list@.take(d as int) =~= department_list@);
        let mut result: Vec<RespSelectOption> = Vec::new();
        let mut e: usize = 0;
        while e < employee_list.len()
            invariant
                e <= employee_list.len(),
                forall|id: i64|
                    match #[trigger] department_name(department_list@, id) {
                        Some(name) => names@.contains_key(id) && names@[id]@ == name,
                        None => !names@.contains_key(id),
                    },
                option_views(result@) == merged(employee_list@.take(e as int), department_list@),
            decreases employee_list.len() - e,
        {
            let ghost before = employee_list@.take(e as int);
            let ghost after = employee_list@.take(e + 1);
            let ghost shown = option_views(result@);
            proof {
                assert(after.drop_last() =~= before);
                assert(after.last() == employee_list@[e as int]);
            }
            let department_id = employee_list[e].department_id;
            match names.get(&department_id) {
                Some(department_name) => {
                    let info = RespSelectOption {
                        employee_id: employee_list[e].employee_id,
                        realname: employee_list[e].realname.clone(),
                        department_id,
                        department_name: department_name.clone(),
                    };
                    result.push(info);
                    assert(option_views(result@) =~= shown.push(option_view(info)));
                },
                None => {},
            }
            e += 1;
        }
        assert(employee_list@.take(e as int) =~= employee_list@);
        result
    }
}

} // verus!
