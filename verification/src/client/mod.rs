//! What a client decides from what the server tells it.

pub mod input;
pub mod query;
pub mod unix;
pub mod widgets;
