use crate::application::dto::position_dto::{RespInfo, RespList, RespSelect};
use crate::common::result::response::{fetched, require_none, ApiErr, StoreFailure};
use crate::common::utils::{query_filter, query_text};
use crate::common::xtime::shown_time;
use vstd::prelude::*;

verus! {

/// What the listings read of a stored position.
#[derive(Debug)]
pub struct PositionRow {
    pub position_id: i64,
    pub position_name: String,
    pub level: String,
    pub sort: i64,
    pub remark: String,
    pub create_time: i64,
}

/// Whether `info` shows `row`: every column as it is, and the time it was
/// made as text.
pub open spec fn shows(info: RespInfo, row: PositionRow) -> bool {
    &&& info.postid == row.position_id
    &&& info.postname == row.position_name
    &&& info.level == row.level
    &&& info.sort == row.sort
    &&& info.remark == row.remark
    &&& info.create_time == row.create_time
    &&& info.create_time_str@ == shown_time(row.create_time as int)
}

/// What the position handlers decide between two calls of the data store.
#[derive(Debug, Clone, Copy)]
pub struct PositionRepository;

impl PositionRepository {
    pub fn new() -> Self {
        PositionRepository
    }

    /// Whether a position may be added, given how many positions bear its
    /// name already.
    pub fn create(same_name: u64) -> (r: Result<(), ApiErr>)
        ensures
            same_name == 0 ==> r is Ok,
            same_name > 0 ==> (r matches Err(ApiErr::ErrPerm(Some(m))) && m@ == "职务名称重复"@),
    {
        require_none(same_name, "职务名称重复")
    }

    /// The name that the listing is filtered by: that of the query's member
    /// `postname`, where it has one that is not empty.
    pub fn list_filter<'a>(query: &'a Vec<(String, String)>) -> (r: Option<&'a String>)
        ensures
            match query_text(query@, "postname"@) {
                Some(v) => r matches Some(s) && s@ == v,
                None => r is None,
            },
    {
        query_filter(query, "postname")
    }

    /// One page of the listing: the rows as they are shown, in the order in
    /// which they were fetched, with the number of all rows.
    pub fn list(total: i64, rows: Vec<PositionRow>) -> (r: RespList)
        ensures
            r.total == total,
            r.list@.len() == rows@.len(),
            forall|i: int| 0 <= i < rows@.len() ==> shows(#[trigger] r.list@[i], rows@[i]),
    {
        let mut list: Vec<RespInfo> = Vec::new();
        let mut i: usize = 0;
        while i < rows.len()
            invariant
                i <= rows.len(),
                list@.len() == i,
                forall|k: int| 0 <= k < i ==> shows(#[trigger] list@[k], rows@[k]),
            decreases rows.len() - i,
        {
            let info = RespInfo::from_row(
                rows[i].position_id,
                rows[i].position_name.clone(),
                rows[i].level.clone(),
                rows[i].sort,
                rows[i].remark.clone(),
                rows[i].create_time,
            );
            list.push(info);
            i += 1;
        }
        RespList { total, list }
    }

    /// The position to show, or the answer where there is none.
    pub fn info(row: Result<Option<PositionRow>, StoreFailure>) -> (r: Result<RespInfo, ApiErr>)
        ensures
            match row {
                Ok(Some(found)) => r matches Ok(info) && shows(info, found),
                Ok(None) => r matches Err(ApiErr::ErrNotFound(Some(m))) && m@ == "职务信息不存在"@,
                Err(_) => r == Err::<RespInfo, ApiErr>(ApiErr::ErrSystem(None)),
            },
    {
        match fetched(row, ApiErr::ErrNotFound(Some("职务信息不存在".to_owned()))) {
            Ok(found) => Ok(
                RespInfo::from_row(
                    found.position_id,
                    found.position_name,
                    found.level,
                    found.sort,
                    found.remark,
                    found.create_time,
                ),
            ),
            Err(e) => Err(e),
        }
    }

    /// The entries of the position picker: id and name of every position,
    /// in the order in which they were fetched.
    pub fn select_list(rows: Vec<PositionRow>) -> (r: Vec<RespSelect>)
        ensures
            r@.len() == rows@.len(),
            forall|i: int|
                0 <= i < rows@.len() ==> (#[trigger] r@[i]).postid == rows@[i].position_id && r@[i].postname
                    == rows@[i].position_name,
    {
        let mut list: Vec<RespSelect> = Vec::new();
        let mut i: usize = 0;
        while i < rows.len()
            invariant
                i <= rows.len(),
                list@.len() == i,
                forall|k: int|
                    0 <= k < i ==> (#[trigger] list@[k]).postid == rows@[k].position_id && list@[k].postname
                        == rows@[k].position_name,
            decreases rows.len() - i,
        {
            list.push(
                RespSelect { postid: rows[i].position_id, postname: rows[i].position_name.clone() },
            );
            i += 1;
        }
        list
    }
}

} // verus!
