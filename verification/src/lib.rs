//! A small file-encryption vault: raw 16-byte symmetric keys, and a
//! counter-mode cipher pipeline whose on-disk format is a 16-byte random
//! initialization vector followed by ciphertext of the plaintext's length.
//!
//! The modules here hold everything with a correctness contract: key
//! validation and generation, the encrypt/decrypt data path, and the
//! decisions of command-line parsing. Reading and writing the files
//! themselves, and presenting messages, is left to the surrounding program.

pub mod cipher_handler;
pub mod command_parser;
pub mod errors;
pub mod key_handler;
mod random;
