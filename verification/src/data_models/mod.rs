pub mod outbox_role;
pub mod role;
pub mod user;
