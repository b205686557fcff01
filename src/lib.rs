//! A product catalog core: salted password hashing, encrypted session
//! tokens, pagination parsing and an ownership-gated record store.

pub mod accounts;
pub mod config;
pub mod error;
pub mod pagination;
pub mod password;
pub mod products;
pub mod routes;
pub mod store;
pub mod token;
