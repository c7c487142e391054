//! Regular-expression results over a shared text buffer, and the hashing
//! operations of the scripting runtime.
pub mod captures;
pub mod hash;
pub mod laws;
pub mod matches;
pub mod pattern;
