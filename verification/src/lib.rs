//! Client-side core for a metered-utility sensor platform: token issuance
//! and expiry, claim extraction from a bearer token, reader-device
//! resolution, and time-windowed usage queries.

mod errors;
pub mod bytes;
pub mod claims;
pub mod device;
pub mod json;
pub mod timewin;
pub mod token;
pub mod usage;

pub use errors::AuthError;
pub use errors::ClaimError;
pub use errors::DeviceError;
pub use errors::FlumeError;
pub use errors::QueryError;
pub use token::AccessToken;
pub use token::Credential;
pub use token::LoginPayload;
pub use token::acquire;
pub use token::build_login_request;
pub use token::cred_to_login;
pub use claims::resolve_user_id;
pub use device::resolve_device;
pub use timewin::LocalDateTime;
pub use timewin::TimeWindow;
pub use timewin::time_window;
pub use usage::UsageSample;
pub use usage::build_usage_request;
pub use usage::parse_usage_reply;
