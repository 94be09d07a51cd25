use crate::application::dto::department_dto::{RespInfo, RespList, RespSelect};
use crate::common::result::response::{fetched, require_none, ApiErr, StoreFailure};
use crate::common::tree::{build_tree, lemma_no_roots, Row, TreeNode};
use crate::common::utils::{query_get, query_value};
use crate::common::xtime::shown_time;
use vstd::prelude::*;

verus! {

/// What the listings read of a stored department.
#[derive(Debug)]
pub struct DepartmentRow {
    pub department_id: i64,
    pub department_name: String,
    pub manager_id: i64,
    pub parent_id: i64,
    pub sort: i32,
    pub create_time: i64,
}

/// Whether `info` shows `row`: every column as it is, and the time it was
/// made as text.
pub open spec fn shows(info: RespInfo, row: DepartmentRow) -> bool {
    &&& info.department_id == row.department_id
    &&& info.department_name == row.department_name
    &&& info.manager_id == row.manager_id
    &&& info.parent_id == row.parent_id
    &&& info.sort == row.sort
    &&& info.create_time == row.create_time
    &&& info.create_time_str@ == shown_time(row.create_time as int)
}

/// The row of the tree table that a picker entry stands for: every entry
/// names a parent.
pub open spec fn tree_row(entry: RespSelect) -> Row {
    (entry.department_id, entry.department_name, Some(entry.parent_id))
}

/// What the department handlers decide between two calls of the data
/// store.
#[derive(Debug, Clone, Copy)]
pub struct DepartmentRepository;

impl DepartmentRepository {
    pub fn new() -> Self {
        DepartmentRepository
    }

    /// Whether a department may be added, given how many departments bear
    /// its name already.
    pub fn create(same_name: u64) -> (r: Result<(), ApiErr>)
        ensures
            same_name == 0 ==> r is Ok,
            same_name > 0 ==> (r matches Err(ApiErr::ErrPerm(Some(m))) && m@ == "部门名称重复"@),
    {
        require_none(same_name, "部门名称重复")
    }

    /// The tree of the department picker. Every entry is handed to the tree
    /// builder with its parent id as its parent, so that none of them is a
    /// root: the picker has no tree.
    pub fn select_list(entries: Vec<RespSelect>) -> (r: Option<Vec<TreeNode>>)
        ensures
            r is None,
    {
        let mut rows: Vec<Row> = Vec::new();
        let mut i: usize = 0;
        while i < entries.len()
            invariant
                i <= entries.len(),
                rows.len() == i,
                forall|k: int| 0 <= k < i ==> #[trigger] rows@[k] == tree_row(entries@[k]),
            decreases entries.len() - i,
        {
            rows.push(
                (entries[i].department_id, entries[i].department_name.clone(), Some(entries[i].parent_id)),
            );
            i += 1;
        }
        proof {
            lemma_no_roots(rows@);
        }
        build_tree(rows)
    }

    /// The name that the listing is filtered by: that of the query's member
    /// `deptname`, where it has one.
    pub fn list_filter<'a>(query: &'a Vec<(String, String)>) -> (r: Option<&'a String>)
        ensures
            match query_value(query@, "deptname"@) {
                Some(v) => r matches Some(s) && s@ == v,
                None => r is None,
            },
    {
        query_get(query, "deptname")
    }

    /// One page of the listing: the rows as they are shown, in the order in
    /// which they were fetched, with the number of all rows.
    pub fn list(total: i64, rows: Vec<DepartmentRow>) -> (r: RespList)
        ensures
            r.total == total,
            r.list@.len() == rows@.len(),
            forall|i: int| 0 <= i < rows@.len() ==> shows(#[trigger] r.list@[i], rows@[i]),
    {
        let mut list: Vec<RespInfo> = Vec::new();
        let mut i: usize = 0;
        while i < rows.len()
            invariant
                i <= rows.len(),
                list@.len() == i,
                forall|k: int| 0 <= k < i ==> shows(#[trigger] list@[k], rows@[k]),
            decreases rows.len() - i,
        {
            let info = RespInfo::from_row(
                rows[i].department_id,
                rows[i].department_name.clone(),
                rows[i].manager_id,
                rows[i].parent_id,
                rows[i].sort,
                rows[i].create_time,
            );
            list.push(info);
            i += 1;
        }
        RespList { total, list }
    }

    /// The department to show, or the answer where there is none.
    pub fn info(row: Result<Option<DepartmentRow>, StoreFailure>) -> (r: Result<RespInfo, ApiErr>)
        ensures
            match row {
                Ok(Some(found)) => r matches Ok(info) && shows(info, found),
                Ok(None) => r matches Err(ApiErr::ErrNotFound(Some(m))) && m@ == "部门信息不存在"@,
                Err(_) => r == Err::<RespInfo, ApiErr>(ApiErr::ErrSystem(None)),
            },
    {
        match fetched(row, ApiErr::ErrNotFound(Some("部门信息不存在".to_owned()))) {
            Ok(found) => Ok(
                RespInfo::from_row(
                    found.department_id,
                    found.department_name,
                    found.manager_id,
                    found.parent_id,
                    found.sort,
                    found.create_time,
                ),
            ),
            Err(e) => Err(e),
        }
    }

    /// Whether a department may be deleted, given how many departments
    /// stand below it.
    pub fn delete(children: u64) -> (r: Result<(), ApiErr>)
        ensures
            children == 0 ==> r is Ok,
            children > 0 ==> (r matches Err(ApiErr::ErrPerm(Some(m))) && m@
                == "该部门下有子部门，无法删除"@),
    {
        require_none(children, "该部门下有子部门，无法删除")
    }

    /// Whether a department without departments below it may be deleted,
    /// given how many employees belong to it.
    pub fn delete_staffed(employees: u64) -> (r: Result<(), ApiErr>)
        ensures
            employees == 0 ==> r is Ok,
            employees > 0 ==> (r matches Err(ApiErr::ErrPerm(Some(m))) && m@
                == "该部门下已分配员工，无法删除"@),
    {
        require_none(employees, "该部门下已分配员工，无法删除")
    }
}

} // verus!
