//! What the application knows of the document store: addresses of its
//! calls, the shapes of its answers, and the decisions taken on them.

pub mod auth;
pub mod drive;
pub mod sheets;
pub mod token_store;
