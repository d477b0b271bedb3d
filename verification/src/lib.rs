pub mod authentication;
pub mod challenge;
pub mod context;
pub mod enums;
pub mod error;
pub mod jwt;
pub mod laws;
pub mod models;
pub mod request;
pub mod response;
pub mod server;
pub mod store;
pub mod text;
pub mod token;
pub mod userinfo;
