//! Typed notifications from a JACK audio server.
//!
//! The server reports lifecycle and graph changes through callbacks on its own
//! threads. This library turns each callback into a [`Notification`] value and
//! forwards it, without blocking, through a channel to application code. Each
//! notification can be rendered as one line of text.

pub mod client_name;
pub mod handler;
pub mod notification;
pub mod sender;
pub mod text;

pub use client_name::get_name;
pub use handler::{Control, DummyProcessHandler, SimpleNotificationHandler};
pub use notification::{Notification, NotificationView};
pub use sender::EventSender;
