//! What the calls of the user interface decide, apart from the input and
//! output they are wrapped in.

pub mod cache_keys;
pub mod images;
pub mod login;
pub mod startup;
