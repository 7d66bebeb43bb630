//! What nearly every user of the library names.
pub use crate::cell::TokenCell;
pub use crate::cell::TokenCellTrait;
pub use crate::token::TokenTrait;
