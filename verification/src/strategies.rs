pub mod authentication;
pub mod jwt;
