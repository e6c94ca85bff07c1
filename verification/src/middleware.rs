pub mod token_authentication;
