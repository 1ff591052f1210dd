//! Correlation of outbound platform requests with their asynchronous completions.
//!
//! A [`PlatformRegistry`] hands out platform handles and owns one
//! [`JavaPlatform`] per handle. Each platform hands out response handles and
//! keeps the pending completion callbacks keyed by them, so that a success or
//! an error delivered later reaches exactly the request that it answers.
mod bytes;
pub mod laws;
pub mod naming;
pub mod platform;
pub mod registry;

pub use naming::function_name;
pub use platform::{
    JavaPlatform, OutboundRequest, Platform, ResponseCallback, ResponseLog, SendRequestError,
};
pub use registry::{
    native_on_send_request_error, native_on_send_request_success, CreateError, Delivery,
    PlatformRegistry, Registration,
};
