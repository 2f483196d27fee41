//! Verified core of a Telegram bot that reports on AWS Lightsail instances:
//! the decisions it takes on each command, the texts it sends back, the
//! billing-month period it asks the metrics service about, and the handling
//! of service error responses.

pub mod clock;
pub mod error;
pub mod period;
pub mod text;
pub mod metrics;
pub mod bot;
pub mod lambda;
