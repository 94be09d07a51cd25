pub mod department_controller;
pub mod employee_controller;
pub mod login_controller;
pub mod position_controller;
pub mod role_controller;
