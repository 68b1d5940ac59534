//! Payment-session validator: one backend principal registers payment
//! requests keyed by memo, and each request can be satisfied at most once.
pub mod error;
pub mod laws;
pub mod model;
pub mod session;
pub mod validator;
