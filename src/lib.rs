//! Credential verification and session authorization for the newsletter
//! service: password hashing, timing-equalized credential validation,
//! `Basic` authorization parsing, session guarding and the password-change
//! workflow.

pub mod authentication;
pub mod basic_auth;
pub mod configuration;
pub mod credential_store;
pub mod domain;
pub mod hasher;
pub mod laws;
pub mod login;
pub mod newsletters;
pub mod pages;
pub mod password_change;
pub mod session;
