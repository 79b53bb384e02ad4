//! Credential and verification workflow engine of an identity service.
//!
//! The engine keeps an append-only identity store and issues, validates and
//! revokes verification challenges, passwords and API keys on top of it.
//!
//! - [`store`] holds the tables; the `*_service` modules store and find the
//!   rows of one table each, and answer its queries.
//! - [`handlers`] and [`views`] hold the workflow operations, [`mail`] the
//!   mails that they send, [`request`] and [`response`] what they take and
//!   answer.
//! - [`guarantees`] states what holds of the operations on every store.
//! - [`utils`] hashes secrets and passwords, draws tokens, reads the clock
//!   and decides the password policy.
//! - [`api`] names the operations by their paths.
pub mod api;
pub mod api_key_service;
pub mod config;
pub mod db_types;
pub mod email_service;
pub mod filter;
pub mod guarantees;
pub mod handlers;
pub mod mail;
pub mod order;
pub mod parent_permission_service;
pub mod password_reset_service;
pub mod password_service;
pub mod request;
pub mod response;
pub mod store;
pub mod user_data_service;
pub mod user_service;
pub mod utils;
pub mod verification_challenge_service;
pub mod views;
