pub mod auth_controller;
pub mod users_controller;
