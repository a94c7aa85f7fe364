//! The parameters and bodies of the trade service's calls.
pub mod cart;
pub mod settlement;
pub mod submit;
pub mod user_info;
