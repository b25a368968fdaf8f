pub mod auth;
pub mod client_id;
pub mod endpoint;
pub mod error;
pub mod message;
pub mod plan;
pub mod qos;
pub mod tls;
pub mod version;
