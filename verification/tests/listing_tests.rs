use hr_admin::application::dto::{department_dto, employee_dto, login_dto, position_dto, role_dto};
use hr_admin::common::result::response::{
    fetched, require_found, require_none, require_text, stored, ApiErr, ApiOK, StoreFailure,
};
use hr_admin::infrastructure::repository::department_repository::{
    DepartmentRepository, DepartmentRow,
};
use hr_admin::infrastructure::repository::employee_repository::{EmployeeRepository, EmployeeRow};
use hr_admin::infrastructure::repository::position_repository::{PositionRepository, PositionRow};
use hr_admin::infrastructure::repository::role_repository::{RoleRepository, RoleRow};
use hr_admin::interface::controllers::department_controller::DepartmentController;
use hr_admin::interface::controllers::employee_controller::EmployeeController;
use hr_admin::interface::controllers::position_controller::PositionController;
use hr_admin::interface::controllers::role_controller::RoleController;

fn pairs(items: &[(&str, &str)]) -> Vec<(String, String)> {
    items.iter().map(|(k, v)| (k.to_string(), v.to_string())).collect()
}

fn complaint(r: Result<(), ApiErr>) -> Option<String> {
    match r {
        Ok(()) => None,
        Err(ApiErr::ErrParams(Some(m))) => Some(m),
        Err(other) => panic!("{:?}", other),
    }
}

fn forbidden<T: std::fmt::Debug>(r: Result<T, ApiErr>) -> String {
    match r {
        Err(ApiErr::ErrPerm(Some(m))) => m,
        other => panic!("{:?}", other),
    }
}

#[test]
fn the_helpers_answer_as_documented() {
    assert!(require_text("x", "m").is_ok());
    assert_eq!(complaint(require_text("", "m")).unwrap(), "m");
    assert!(require_none(0, "m").is_ok());
    assert_eq!(forbidden(require_none(1, "m")), "m");
    assert_eq!(forbidden(require_none(u64::MAX, "m")), "m");
    assert_eq!(require_found(Some(3), "m").unwrap(), 3);
    assert!(matches!(require_found::<i32>(None, "m"), Err(ApiErr::ErrNotFound(Some(m))) if m == "m"));
    assert_eq!(fetched(Ok(Some(3)), ApiErr::ErrAuth(None)).unwrap(), 3);
    assert!(matches!(fetched::<i32>(Ok(None), ApiErr::ErrAuth(None)), Err(ApiErr::ErrAuth(None))));
    assert!(matches!(
        fetched::<i32>(Err(StoreFailure), ApiErr::ErrAuth(None)),
        Err(ApiErr::ErrSystem(None))
    ));
    assert!(matches!(stored(Ok(())), Ok(ApiOK(None))));
    assert!(matches!(stored(Err(StoreFailure)), Err(ApiErr::ErrSystem(None))));
}

#[test]
fn requests_are_checked_member_by_member() {
    let d = department_dto::ReqCreate { deptname: String::new(), sort: 1, managerid: 2, parentid: 3 };
    assert_eq!(complaint(d.validate()).unwrap(), "部门名称必填");
    assert_eq!(complaint(DepartmentController::create(&d)).unwrap(), "部门名称必填");
    let d = department_dto::ReqCreate { deptname: "x".to_string(), sort: 1, managerid: 2, parentid: 3 };
    assert!(d.validate().is_ok());
    let u = department_dto::UpdateInfo {
        deptid: 1,
        deptname: String::new(),
        sort: 1,
        managerid: 2,
        parentid: 3,
        create_time: 0,
        create_time_str: String::new(),
    };
    assert_eq!(complaint(DepartmentController::update(&u)).unwrap(), "部门名称必填");

    let e = |realname: &str, phone: &str, login_name: &str, email: &str| employee_dto::ReqCreate {
        realname: realname.to_string(),
        phone: phone.to_string(),
        department_id: 1,
        login_name: login_name.to_string(),
        email: email.to_string(),
        gender: 0,
        disabled_flag: 0,
        position_id: 1,
    };
    assert!(e("a", "b", "c", "d").validate().is_ok());
    assert_eq!(complaint(e("", "", "", "").validate()).unwrap(), "员工姓名必填");
    assert_eq!(complaint(e("a", "", "", "").validate()).unwrap(), "手机号码必填");
    assert_eq!(complaint(e("a", "b", "", "").validate()).unwrap(), "登录名必填");
    assert_eq!(complaint(e("a", "b", "c", "").validate()).unwrap(), "邮箱必填");
    assert_eq!(complaint(EmployeeController::create(&e("a", "b", "c", ""))).unwrap(), "邮箱必填");
    let u = employee_dto::UpdateInfo {
        employee_id: 1,
        realname: "a".to_string(),
        phone: String::new(),
        department_id: 1,
        login_name: "c".to_string(),
        email: String::new(),
        gender: 0,
        disabled_flag: 0,
        position_id: 1,
    };
    assert_eq!(complaint(EmployeeController::update(&u)).unwrap(), "手机号码必填");

    let l = login_dto::ReqLogin { username: "u".to_string(), password: "p".to_string() };
    assert!(l.validate().is_ok());

    let p = position_dto::ReqCreate {
        postname: String::new(),
        level: String::new(),
        sort: 0,
        remark: String::new(),
    };
    assert_eq!(complaint(PositionController::create(&p)).unwrap(), "职务名称必填");
    let p = position_dto::UpdateInfo {
        postid: 1,
        postname: String::new(),
        level: String::new(),
        sort: 0,
        remark: String::new(),
        create_time: 0,
        create_time_str: String::new(),
    };
    assert_eq!(complaint(PositionController::update(&p)).unwrap(), "角色名称必填");
    let p = position_dto::ReqCreate {
        postname: " ".to_string(),
        level: String::new(),
        sort: 0,
        remark: String::new(),
    };
    assert!(p.validate().is_ok());

    let r = |rolename: &str, rolecode: &str| role_dto::ReqCreate {
        rolename: rolename.to_string(),
        rolecode: rolecode.to_string(),
        remark: String::new(),
    };
    assert!(RoleController::create(&r("a", "b")).is_ok());
    assert_eq!(complaint(RoleController::create(&r("", ""))).unwrap(), "角色名称必填");
    assert_eq!(complaint(RoleController::create(&r("a", ""))).unwrap(), "角色编码必填");
    let u = role_dto::UpdateInfo {
        roleid: 1,
        rolename: "a".to_string(),
        rolecode: String::new(),
        remark: String::new(),
        create_time: 0,
        create_time_str: String::new(),
    };
    assert_eq!(complaint(RoleController::update(&u)).unwrap(), "角色编码必填");
    let _ = (
        DepartmentController::new(),
        EmployeeController::new(),
        PositionController::new(),
        RoleController::new(),
    );
}

fn department(id: i64, name: &str, create_time: i64) -> DepartmentRow {
    DepartmentRow {
        department_id: id,
        department_name: name.to_string(),
        manager_id: id + 100,
        parent_id: id - 1,
        sort: 7,
        create_time,
    }
}

#[test]
fn departments_are_listed_as_they_were_fetched() {
    let list = DepartmentRepository::list(
        12,
        vec![department(3, "c", 0), department(2, "b", 1_710_907_200), department(1, "a", -1)],
    );
    assert_eq!(list.total, 12);
    assert_eq!(list.list.len(), 3);
    assert_eq!(list.list[0].department_id, 3);
    assert_eq!(list.list[0].department_name, "c");
    assert_eq!(list.list[0].manager_id, 103);
    assert_eq!(list.list[0].parent_id, 2);
    assert_eq!(list.list[0].sort, 7);
    assert_eq!(list.list[0].create_time_str, "1970-01-01 08:00:00");
    assert_eq!(list.list[1].create_time, 1_710_907_200);
    assert_eq!(list.list[1].create_time_str, "2024-03-20 12:00:00");
    assert_eq!(list.list[2].create_time_str, "");
    assert!(DepartmentRepository::list(0, vec![]).list.is_empty());

    let info = DepartmentRepository::info(Ok(Some(department(5, "e", 0)))).unwrap();
    assert_eq!((info.department_id, info.department_name.as_str()), (5, "e"));
    assert!(matches!(
        DepartmentRepository::info(Ok(None)),
        Err(ApiErr::ErrNotFound(Some(m))) if m == "部门信息不存在"
    ));
    assert!(matches!(
        DepartmentRepository::info(Err(StoreFailure)),
        Err(ApiErr::ErrSystem(None))
    ));
    let _ = DepartmentRepository::new();
}

#[test]
fn department_changes_are_refused_on_conflicts() {
    assert!(DepartmentRepository::create(0).is_ok());
    assert_eq!(forbidden(DepartmentRepository::create(2)), "部门名称重复");
    assert!(DepartmentRepository::delete(0).is_ok());
    assert_eq!(forbidden(DepartmentRepository::delete(1)), "该部门下有子部门，无法删除");
    assert!(DepartmentRepository::delete_staffed(0).is_ok());
    assert_eq!(forbidden(DepartmentRepository::delete_staffed(1)), "该部门下已分配员工，无法删除");
    assert_eq!(
        DepartmentRepository::list_filter(&pairs(&[("deptname", "x")])).unwrap(),
        "x"
    );
    assert_eq!(DepartmentRepository::list_filter(&pairs(&[("deptname", "")])).unwrap(), "");
    assert!(DepartmentRepository::list_filter(&pairs(&[("other", "x")])).is_none());
}

#[test]
fn the_pickers_that_name_a_parent_for_every_entry_have_no_tree() {
    let entries = vec![
        department_dto::RespSelect { department_id: 1, department_name: "a".to_string(), parent_id: 0 },
        department_dto::RespSelect { department_id: 2, department_name: "b".to_string(), parent_id: 1 },
    ];
    assert!(DepartmentRepository::select_list(entries).is_none());
    assert!(DepartmentRepository::select_list(vec![]).is_none());
    let menus = vec![role_dto::RespMenuSelect { menu_id: 1, menu_name: "m".to_string(), parent_id: 0 }];
    assert!(RoleRepository::menu_list(menus).is_none());
}

fn employee(id: i64, department_id: i64) -> EmployeeRow {
    EmployeeRow {
        employee_id: id,
        login_name: format!("login{}", id),
        realname: format!("name{}", id),
        phone: format!("phone{}", id),
        email: format!("mail{}", id),
        gender: 1,
        disabled_flag: 0,
        position_id: 9,
        department_id,
        create_time: 0,
    }
}

#[test]
fn employees_are_listed_as_they_were_fetched() {
    let list = EmployeeRepository::list(2, vec![employee(2, 20), employee(1, 10)]);
    assert_eq!(list.total, 2);
    let first = &list.list[0];
    assert_eq!(first.employee_id, 2);
    assert_eq!(first.login_name, "login2");
    assert_eq!(first.realname, "name2");
    assert_eq!(first.phone, "phone2");
    assert_eq!(first.email, "mail2");
    assert_eq!((first.gender, first.disabled_flag, first.position_id, first.department_id), (1, 0, 9, 20));
    assert_eq!(first.create_time_str, "1970-01-01 08:00:00");
    assert_eq!(list.list[1].employee_id, 1);
    let info = EmployeeRepository::info(Ok(Some(employee(4, 40)))).unwrap();
    assert_eq!((info.employee_id, info.department_id), (4, 40));
    assert!(matches!(
        EmployeeRepository::info(Ok(None)),
        Err(ApiErr::ErrNotFound(Some(m))) if m == "员工信息不存在"
    ));
    assert!(matches!(EmployeeRepository::info(Err(StoreFailure)), Err(ApiErr::ErrSystem(None))));

    let members = RoleRepository::role_emp_list(5, vec![employee(2, 20)]);
    assert_eq!(members.total, 5);
    assert_eq!(members.list[0].login_name, "login2");
    assert_eq!(members.list[0].create_time_str, "1970-01-01 08:00:00");
    let _ = EmployeeRepository::new();
}

#[test]
fn employee_changes_are_refused_on_conflicts() {
    assert!(EmployeeRepository::create(0).is_ok());
    assert_eq!(forbidden(EmployeeRepository::create(1)), "登录名已重复");
    assert!(EmployeeRepository::create_phone(0).is_ok());
    assert_eq!(forbidden(EmployeeRepository::create_phone(1)), "手机号码已重复");
    assert!(EmployeeRepository::update(0).is_ok());
    assert_eq!(forbidden(EmployeeRepository::update(3)), "登录名称或手机号码重复");
    assert_eq!(EmployeeRepository::reset_password(), "e10adc3949ba59abbe56e057f20f883e");
    assert_eq!(EmployeeRepository::initial_password("hello world"), "5eb63bbbe01eeed093cb22bb8f5acdc3");
    assert_eq!(EmployeeRepository::list_disabled(&pairs(&[("disabled_flag", "1")])), Some(1));
    assert_eq!(EmployeeRepository::list_disabled(&pairs(&[("disabled_flag", "0")])), Some(0));
    assert_eq!(EmployeeRepository::list_disabled(&pairs(&[("disabled_flag", "")])), Some(0));
    assert_eq!(EmployeeRepository::list_disabled(&pairs(&[("disabled_flag", "11")])), Some(0));
    assert_eq!(EmployeeRepository::list_disabled(&pairs(&[])), None);
    let q = pairs(&[("phone", "138"), ("login_name", "")]);
    assert_eq!(EmployeeRepository::list_filter(&q, "phone").unwrap(), "138");
    assert!(EmployeeRepository::list_filter(&q, "login_name").is_none());
    assert!(EmployeeRepository::list_filter(&q, "realname").is_none());
}

#[test]
fn employees_are_joined_with_their_departments() {
    let emp = |id: i64, dept: i64| employee_dto::RespEmpInfo {
        employee_id: id,
        realname: format!("n{}", id),
        department_id: dept,
    };
    let dep = |id: i64, name: &str| employee_dto::RespDeptInfo {
        department_id: id,
        department_name: name.to_string(),
    };
    let merged = EmployeeRepository::merge_employee_department(
        vec![emp(1, 10), emp(2, 99), emp(3, 20), emp(4, 10)],
        vec![dep(10, "old"), dep(20, "twenty"), dep(10, "ten")],
    );
    let shown: Vec<(i64, String, i64, String)> = merged
        .into_iter()
        .map(|o| (o.employee_id, o.realname, o.department_id, o.department_name))
        .collect();
    assert_eq!(
        shown,
        vec![
            (1, "n1".to_string(), 10, "ten".to_string()),
            (3, "n3".to_string(), 20, "twenty".to_string()),
            (4, "n4".to_string(), 10, "ten".to_string()),
        ]
    );
    assert!(EmployeeRepository::merge_employee_department(vec![emp(1, 1)], vec![]).is_empty());
    assert!(EmployeeRepository::merge_employee_department(vec![], vec![dep(1, "a")]).is_empty());
}

#[test]
fn positions_are_listed_and_picked() {
    let row = |id: i64| PositionRow {
        position_id: id,
        position_name: format!("p{}", id),
        level: "L".to_string(),
        sort: 3,
        remark: "r".to_string(),
        create_time: 1_710_907_200,
    };
    let list = PositionRepository::list(1, vec![row(2), row(1)]);
    assert_eq!(list.total, 1);
    assert_eq!(list.list[0].postid, 2);
    assert_eq!(list.list[0].postname, "p2");
    assert_eq!((list.list[0].level.as_str(), list.list[0].sort, list.list[0].remark.as_str()), ("L", 3, "r"));
    assert_eq!(list.list[0].create_time_str, "2024-03-20 12:00:00");
    let picked = PositionRepository::select_list(vec![row(2), row(1)]);
    assert_eq!((picked[0].postid, picked[0].postname.as_str()), (2, "p2"));
    assert_eq!((picked[1].postid, picked[1].postname.as_str()), (1, "p1"));
    assert_eq!(PositionRepository::info(Ok(Some(row(7)))).unwrap().postid, 7);
    assert!(matches!(
        PositionRepository::info(Ok(None)),
        Err(ApiErr::ErrNotFound(Some(m))) if m == "职务信息不存在"
    ));
    assert!(matches!(PositionRepository::info(Err(StoreFailure)), Err(ApiErr::ErrSystem(None))));
    assert!(PositionRepository::create(0).is_ok());
    assert_eq!(forbidden(PositionRepository::create(1)), "职务名称重复");
    assert_eq!(PositionRepository::list_filter(&pairs(&[("postname", "x")])).unwrap(), "x");
    assert!(PositionRepository::list_filter(&pairs(&[("postname", "")])).is_none());
    let _ = PositionRepository::new();
}

#[test]
fn roles_are_listed_and_picked() {
    let row = |id: i64| RoleRow {
        role_id: id,
        role_name: format!("r{}", id),
        role_code: format!("c{}", id),
        remark: "m".to_string(),
        create_time: 0,
    };
    let list = RoleRepository::list(4, vec![row(2), row(1)]);
    assert_eq!(list.total, 4);
    assert_eq!(list.list[1].roleid, 1);
    assert_eq!(list.list[1].rolename, "r1");
    assert_eq!(list.list[1].rolecode, "c1");
    assert_eq!(list.list[1].remark, "m");
    assert_eq!(list.list[1].create_time_str, "1970-01-01 08:00:00");
    let picked = RoleRepository::select_list(vec![row(2), row(1)]);
    assert_eq!((picked[0].roleid, picked[0].rolename.as_str()), (2, "r2"));
    assert_eq!(RoleRepository::info(Ok(Some(row(7)))).unwrap().rolecode, "c7");
    assert!(matches!(
        RoleRepository::info(Ok(None)),
        Err(ApiErr::ErrNotFound(Some(m))) if m == "角色信息不存在"
    ));
    assert!(matches!(RoleRepository::info(Err(StoreFailure)), Err(ApiErr::ErrSystem(None))));
    assert!(RoleRepository::create(0).is_ok());
    assert_eq!(forbidden(RoleRepository::create(1)), "角色名称或角色编码重复");
    assert_eq!(forbidden(RoleRepository::update(1)), "角色名称或角色编码重复");
    assert!(RoleRepository::update(0).is_ok());
    assert!(RoleRepository::delete(0).is_ok());
    assert_eq!(forbidden(RoleRepository::delete(1)), "该角色下存在员工，无法删除");
    assert_eq!(RoleRepository::list_filter(&pairs(&[("rolename", "x")])).unwrap(), "x");
    assert!(RoleRepository::list_filter(&pairs(&[("rolename", "")])).is_none());
    let _ = RoleRepository::new();
}

#[test]
fn the_role_asked_for_falls_back_to_the_first() {
    assert_eq!(RoleRepository::role_emp_role(&pairs(&[("roleid", "7")])), 7);
    assert_eq!(RoleRepository::role_emp_role(&pairs(&[("roleid", "-7")])), -7);
    assert_eq!(RoleRepository::role_emp_role(&pairs(&[("roleid", "+7")])), 7);
    assert_eq!(RoleRepository::role_emp_role(&pairs(&[("roleid", "x")])), 1);
    assert_eq!(RoleRepository::role_emp_role(&pairs(&[("roleid", "")])), 1);
    assert_eq!(RoleRepository::role_emp_role(&pairs(&[("roleid", "-")])), 1);
    assert_eq!(RoleRepository::role_emp_role(&pairs(&[])), 1);
    assert_eq!(
        RoleRepository::role_emp_role(&pairs(&[("roleid", "9223372036854775807")])),
        i64::MAX
    );
    assert_eq!(
        RoleRepository::role_emp_role(&pairs(&[("roleid", "-9223372036854775808")])),
        i64::MIN
    );
    assert_eq!(RoleRepository::role_emp_role(&pairs(&[("roleid", "9223372036854775808")])), 1);
    assert_eq!(RoleRepository::role_emp_role(&pairs(&[("roleid", "-0")])), 0);
    let text = "12".to_string();
    assert_eq!(RoleRepository::convert_string_to_i64(Some(&text)), Some(12));
    assert_eq!(RoleRepository::convert_string_to_i64(None), None);
}
