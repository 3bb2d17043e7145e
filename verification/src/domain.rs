pub mod data_stores;
pub mod email;
pub mod email_client;
pub mod error;
pub mod password;
pub mod user;

