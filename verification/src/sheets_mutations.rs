//! The transforms of individual sheet mutation types.

pub mod identity;
pub mod by_kind;
pub mod discarding;
pub mod rules;
pub mod layout;
