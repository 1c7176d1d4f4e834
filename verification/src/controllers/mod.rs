pub mod auth_controller;
