//! Attaching a payment method to a customer, and detaching it again.
//!
//! Both operations are one form-encoded POST to a path that names the
//! payment method. This crate builds the path and the form body; a
//! [`Client`] carries them to the service and reads the answer. What the
//! client answers, resource or error, is what the caller gets.
//!
//! - [`payment_method`]: the resource, the parameters of the two operations,
//!   and the operations themselves.
//! - [`form`]: how parameters are written as a form body.
//! - [`text`]: joining text with a separator and cutting it apart again.
//! - [`client`]: what the operations ask of a client.
//! - [`ids`] and [`error`]: identifiers and failures.

pub mod client;
pub mod error;
pub mod form;
pub mod ids;
pub mod payment_method;
pub mod text;

pub use crate::client::{Client, Recorder, Response};
pub use crate::error::Error;
pub use crate::ids::{CustomerId, PaymentMethodId};
pub use crate::payment_method::{AttachPaymentMethod, DetachPaymentMethod, PaymentMethod};
