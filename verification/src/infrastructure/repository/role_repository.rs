use crate::application::dto::role_dto::{
    RespEmpInfo, RespEmpList, RespInfo, RespList, RespMenuSelect, RespSelect,
};
use crate::common::result::response::{fetched, require_none, ApiErr, StoreFailure};
use crate::common::tree::{build_tree, lemma_no_roots, Row, TreeNode};
use crate::common::utils::{parse_i64, parse_i64_spec, query_filter, query_get, query_text, query_value};
use crate::common::xtime::shown_time;
use crate::infrastructure::repository::employee_repository::EmployeeRow;
use vstd::prelude::*;

verus! {

/// The role whose members are listed where the query names none.
pub const DEFAULT_ROLE_ID: i64 = 1;

/// What the listings read of a stored role.
#[derive(Debug)]
pub struct RoleRow {
    pub role_id: i64,
    pub role_name: String,
    pub role_code: String,
    pub remark: String,
    pub create_time: i64,
}

/// Whether `info` shows `row`: every column as it is, and the time it was
/// made as text.
pub open spec fn shows(info: RespInfo, row: RoleRow) -> bool {
    &&& info.roleid == row.role_id
    &&& info.rolename == row.role_name
    &&& info.rolecode == row.role_code
    &&& info.remark == row.remark
    &&& info.create_time == row.create_time
    &&& info.create_time_str@ == shown_time(row.create_time as int)
}

/// Whether `info` shows the employee `row` as a member of a role.
pub open spec fn shows_member(info: RespEmpInfo, row: EmployeeRow) -> bool {
    &&& info.employee_id == row.employee_id
    &&& info.login_name == row.login_name
    &&& info.realname == row.realname
    &&& info.phone == row.phone
    &&& info.email == row.email
    &&& info.gender == row.gender
    &&& info.disabled_flag == row.disabled_flag
    &&& info.position_id == row.position_id
    &&& info.department_id == row.department_id
    &&& info.create_time == row.create_time
    &&& info.create_time_str@ == shown_time(row.create_time as int)
}

/// The role that a query asks for in its member `roleid`: the number in
/// it, or [`DEFAULT_ROLE_ID`] where there is no such member or it is no
/// number.
pub open spec fn asked_role(query: Seq<(String, String)>) -> i64 {
    match query_value(query, "roleid"@) {
        Some(v) => match parse_i64_spec(v) {
            Some(id) => id,
            None => DEFAULT_ROLE_ID,
        },
        None => DEFAULT_ROLE_ID,
    }
}

/// What the role handlers decide between two calls of the data store.
#[derive(Debug, Clone, Copy)]
pub struct RoleRepository;

impl RoleRepository {
    pub fn new() -> Self {
        RoleRepository
    }

    /// Whether a role may be added, given how many roles have its name or
    /// its code already.
    pub fn create(same_name_or_code: u64) -> (r: Result<(), ApiErr>)
        ensures
            same_name_or_code == 0 ==> r is Ok,
            same_name_or_code > 0 ==> (r matches Err(ApiErr::ErrPerm(Some(m))) && m@
                == "角色名称或角色编码重复"@),
    {
        require_none(same_name_or_code, "角色名称或角色编码重复")
    }

    /// Whether a role may be changed, given how many roles have its name or
    /// its code.
    pub fn update(same_name_or_code: u64) -> (r: Result<(), ApiErr>)
        ensures
            same_name_or_code == 0 ==> r is Ok,
            same_name_or_code > 0 ==> (r matches Err(ApiErr::ErrPerm(Some(m))) && m@
                == "角色名称或角色编码重复"@),
    {
        require_none(same_name_or_code, "角色名称或角色编码重复")
    }

    /// Whether a role may be deleted, given how many employees have it.
    pub fn delete(members: u64) -> (r: Result<(), ApiErr>)
        ensures
            members == 0 ==> r is Ok,
            members > 0 ==> (r matches Err(ApiErr::ErrPerm(Some(m))) && m@
                == "该角色下存在员工，无法删除"@),
    {
        require_none(members, "该角色下存在员工，无法删除")
    }

    /// The name that the listing is filtered by: that of the query's member
    /// `rolename`, where it has one that is not empty.
    pub fn list_filter<'a>(query: &'a Vec<(String, String)>) -> (r: Option<&'a String>)
        ensures
            match query_text(query@, "rolename"@) {
                Some(v) => r matches Some(s) && s@ == v,
                None => r is None,
            },
    {
        query_filter(query, "rolename")
    }

    /// One page of the listing: the rows as they are shown, in the order in
    /// which they were fetched, with the number of all rows.
    pub fn list(total: i64, rows: Vec<RoleRow>) -> (r: RespList)
        ensures
            r.total == total,
            r.list@.len() == rows@.len(),
            forall|i: int| 0 <= i < rows@.len() ==> shows(#[trigger] r.list@[i], rows@[i]),
    {
        let mut list: Vec<RespInfo> = Vec::new();
        let mut i: usize = 0;
        while i < rows.len()
            invariant
                i <= rows.len(),
                list@.len() == i,
                forall|k: int| 0 <= k < i ==> shows(#[trigger] list@[k], rows@[k]),
            decreases rows.len() - i,
        {
            let info = RespInfo::from_row(
                rows[i].role_id,
                rows[i].role_name.clone(),
                rows[i].role_code.clone(),
                rows[i].remark.clone(),
                rows[i].create_time,
            );
            list.push(info);
            i += 1;
        }
        RespList { total, list }
    }

    /// The role to show, or the answer where there is none.
    pub fn info(row: Result<Option<RoleRow>, StoreFailure>) -> (r: Result<RespInfo, ApiErr>)
        ensures
            match row {
                Ok(Some(found)) => r matches Ok(info) && shows(info, found),
                Ok(None) => r matches Err(ApiErr::ErrNotFound(Some(m))) && m@ == "角色信息不存在"@,
                Err(_) => r == Err::<RespInfo, ApiErr>(ApiErr::ErrSystem(None)),
            },
    {
        match fetched(row, ApiErr::ErrNotFound(Some("角色信息不存在".to_owned()))) {
            Ok(found) => Ok(
                RespInfo::from_row(
                    found.role_id,
                    found.role_name,
                    found.role_code,
                    found.remark,
                    found.create_time,
                ),
            ),
            Err(e) => Err(e),
        }
    }

    /// The entries of the role picker: id and name of every role, in the
    /// order in which they were fetched.
    pub fn select_list(rows: Vec<RoleRow>) -> (r: Vec<RespSelect>)
        ensures
            r@.len() == rows@.len(),
            forall|i: int|
                0 <= i < rows@.len() ==> (#[trigger] r@[i]).roleid == rows@[i].role_id && r@[i].rolename
                    == rows@[i].role_name,
    {
        let mut list: Vec<RespSelect> = Vec::new();
        let mut i: usize = 0;
        while i < rows.len()
            invariant
                i <= rows.len(),
                list@.len() == i,
                forall|k: int|
                    0 <= k < i ==> (#[trigger] list@[k]).roleid == rows@[k].role_id && list@[k].rolename
                        == rows@[k].role_name,
            decreases rows.len() - i,
        {
            list.push(RespSelect { roleid: rows[i].role_id, rolename: rows[i].role_name.clone() });
            i += 1;
        }
        list
    }

    /// Reads a number out of a member of a query, where there is one.
    pub fn convert_string_to_i64(opt_str: Option<&String>) -> (r: Option<i64>)
        ensures
            r == match opt_str {
                Some(s) => parse_i64_spec(s@),
                None => None,
            },
    {
        match opt_str {
            Some(s) => parse_i64(s.as_str()),
            None => None,
        }
    }

    /// The role whose members a query asks for.
    pub fn role_emp_role(query: &Vec<(String, String)>) -> (r: i64)
        ensures
            r == asked_role(query@),
    {
        match Self::convert_string_to_i64(query_get(query, "roleid")) {
            Some(id) => id,
            None => DEFAULT_ROLE_ID,
        }
    }

    /// One page of the members of a role: the employees as they are shown,
    /// in the order in which they were fetched, with the number of all of
    /// them.
    pub fn role_emp_list(total: i64, rows: Vec<EmployeeRow>) -> (r: RespEmpList)
        ensures
            r.total == total,
            r.list@.len() == rows@.len(),
            forall|i: int| 0 <= i < rows@.len() ==> shows_member(#[trigger] r.list@[i], rows@[i]),
    {
        let mut list: Vec<RespEmpInfo> = Vec::new();
        let mut i: usize = 0;
        while i < rows.len()
            invariant
                i <= rows.len(),
                list@.len() == i,
                forall|k: int| 0 <= k < i ==> shows_member(#[trigger] list@[k], rows@[k]),
            decreases rows.len() - i,
        {
            let info = RespEmpInfo::from_row(
                rows[i].employee_id,
                rows[i].realname.clone(),
                rows[i].phone.clone(),
                rows[i].department_id,
                rows[i].login_name.clone(),
                rows[i].email.clone(),
                rows[i].gender,
                rows[i].disabled_flag,
                rows[i].position_id,
                rows[i].create_time,
            );
            list.push(info);
            i += 1;
        }
        RespEmpList { total, list }
    }

    /// The tree of the menu picker. Every entry is handed to the tree
    /// builder with its parent id as its parent, so that none of them is a
    /// root: the picker has no tree.
    pub fn menu_list(entries: Vec<RespMenuSelect>) -> (r: Option<Vec<TreeNode>>)
        ensures
            r is None,
    {
        let mut rows: Vec<Row> = Vec::new();
        let mut i: usize = 0;
        while i < entries.len()
            invariant
                i <= entries.len(),
                rows.len() == i,
                forall|k: int| 0 <= k < i ==> (#[trigger] rows@[k]).2 is Some,
            decreases entries.len() - i,
        {
            rows.push((entries[i].menu_id, entries[i].menu_name.clone(), Some(entries[i].parent_id)));
            i += 1;
        }
        proof {
            lemma_no_roots(rows@);
        }
        build_tree(rows)
    }
}

} // verus!
