//! Re-exports of the most commonly used items.
pub use crate::apis::ApiError;
pub use crate::apis::ResponseContent;
