//! Login/authorization state of a single user of a remote wiki-style HTTP
//! API, with permission ("rights") queries over a cached user-info document.

pub mod json;
pub mod user;

pub use json::JsonDoc;
pub use user::ApiClient;
pub use user::LoginError;
pub use user::User;
