pub mod crypto;
pub mod error;
pub mod number;
pub mod text;
pub mod settings;
pub mod accounts;
pub mod migrate;
pub mod attachments;
pub mod ciphers;
pub mod db;
pub mod admin;
pub mod domains;
pub mod meta;
pub mod timefmt;
