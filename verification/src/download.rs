//! The download manager: the task store and the decisions of the loop that
//! works it off.

pub mod laws;
pub mod lookup;
pub mod queue;
pub mod restore;
pub mod rows;
pub mod source;
pub mod store;
pub mod work;
