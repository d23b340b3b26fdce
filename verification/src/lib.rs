//! Bitwise role and feature permissions, the compact token that carries them,
//! and the authorization decisions taken over that token.

pub mod admin_permissions;
pub mod auth_user;
pub mod authorization;
pub mod binary_text;
pub mod claims;
pub mod clock;
pub mod crypto_manager;
pub mod digest;
pub mod errors;
pub mod equipment;
pub mod feature_permissions;
pub mod game_server;
pub mod ids;
pub mod keys;
pub mod login;
pub mod permission_constants;
pub mod permission_laws;
pub mod permission_manager;
pub mod protected;
pub mod store;
pub mod text;
pub mod token;
pub mod user;
pub mod user_files;
pub mod user_service;
