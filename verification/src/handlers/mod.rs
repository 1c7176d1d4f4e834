pub mod callback_handler;
pub mod login_handler;
pub mod validation_handler;
