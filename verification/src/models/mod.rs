pub mod role;
pub mod user;
