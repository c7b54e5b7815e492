//! A small user-account service: Argon2 password credentials and the
//! decisions of the create-account and fetch-account handlers.
pub mod credential;
pub mod account;
