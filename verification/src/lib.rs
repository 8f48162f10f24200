//! Content protection and normalization for short stored messages.
//!
//! A message body at rest is either an encrypted envelope (base64 of
//! IV-prefixed AES-256-CBC ciphertext), a legacy hex-encoded UTF-16 payload,
//! or plain text; no stored flag says which. This crate provides the cipher
//! codec, the heuristic format classifier, and the read/write normalization
//! pipeline that ties them together.

pub mod text;
pub mod cipher;
pub mod classify;
pub mod hexcodec;
pub mod pipeline;
pub mod utf16;

