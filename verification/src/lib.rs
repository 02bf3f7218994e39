//! Domain model of a payment orchestration service: payers and their
//! documents, amounts, gateway attempts for Pix, card and boleto payments,
//! and the rules that move each of them through its lifecycle.

pub mod entities;
pub mod error;
pub mod gateway;
pub mod payment_intent;
pub mod text;
pub mod value_objects;
