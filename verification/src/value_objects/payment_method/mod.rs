pub mod instruction;
pub mod kinds;
pub mod outcome;

pub use kinds::CardKind;
