pub mod db_context;
pub mod jwt_provider;
pub mod oidc_client_factory;
pub mod oidc_state;
pub mod oidc_state_map;
pub mod settings;
pub mod token_cache;
