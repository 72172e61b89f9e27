//! The collaborators of the authorization flow.

pub mod redis;
pub mod token_storage;
