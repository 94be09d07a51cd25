use crate::application::dto::department_dto::{ReqCreate, UpdateInfo};
use crate::common::result::response::{checked, ApiErr};
use vstd::prelude::*;

verus! {

/// What the handlers for departments decide before the service is called.
#[derive(Debug, Clone, Copy)]
pub struct DepartmentController;

impl DepartmentController {
    pub fn new() -> Self {
        DepartmentController
    }

    /// Whether a request to add may go on to the service: one that lacks a
    /// required member is answered with `ErrParams` and the complaint.
    pub fn create(req: &ReqCreate) -> (r: Result<(), ApiErr>)
        ensures
            checked(req.complaint(), r),
    {
        req.validate()
    }

    /// Whether a request to change may go on to the service: one that lacks
    /// a required member is answered with `ErrParams` and the complaint.
    pub fn update(req: &UpdateInfo) -> (r: Result<(), ApiErr>)
        ensures
            checked(req.complaint(), r),
    {
        req.validate()
    }
}

} // verus!
