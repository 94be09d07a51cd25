pub mod department_repository;
pub mod employee_repository;
pub mod login_repository;
pub mod position_repository;
pub mod role_repository;
