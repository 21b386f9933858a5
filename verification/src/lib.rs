//! Verified core of a desktop application's sign-in flow and storage helpers.

pub mod authorize;
pub mod callback;
pub mod flow;
pub mod identity;
pub mod json;
pub mod parameter;
pub mod percent;
pub mod storage;
pub mod text;
pub mod tokens;
