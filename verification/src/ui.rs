pub mod block;
pub mod list;
pub mod search_input;
