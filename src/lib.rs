//! Request logic of a point-of-sale payment backend: it decides what is asked
//! of the payment gateway, checks what callers hand in before any remote call,
//! and maps every outcome onto one response envelope.

pub mod credential;
pub mod error;
pub mod payment;
pub mod response;
pub mod terminal;
