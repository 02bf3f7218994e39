pub mod email;
pub mod name;
pub mod document;
pub mod payer;
