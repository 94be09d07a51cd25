pub mod department_dto;
pub mod employee_dto;
pub mod login_dto;
pub mod position_dto;
pub mod role_dto;
