//! The endpoints of the service.

pub mod health_check;
pub mod subscriptions;

pub use health_check::health_check;
pub use subscriptions::subscribe;
pub use subscriptions::SubscribeFormData;
