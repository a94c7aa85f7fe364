pub mod actions;
pub mod cookie;
pub mod guide;
pub mod json;
pub mod mtop;
pub mod payloads;
pub mod sign;
pub mod text;
pub mod timing;
pub mod urlencode;
