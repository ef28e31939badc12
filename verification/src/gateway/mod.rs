//! The HTTP gateway: the bodies it exchanges and the decisions of its handlers.

pub mod handlers;

pub use handlers::{HealthResponse, WebhookRequest, WebhookResponse};
