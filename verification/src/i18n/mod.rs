//! User-facing text: the message keys and their English and Simplified Chinese labels.

pub mod en_us;
pub mod keys;
pub mod zh_cn;
