//! Transaction data model of a permissioned ledger and the permission
//! validator framework that guards it.
pub mod account;
pub mod isi;
pub mod metadata;
pub mod rejection;
pub mod signature;
pub mod text;
pub mod transaction;
pub mod validator;
pub mod version;
