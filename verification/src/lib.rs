//! Backend of a small desktop application: the pure logic behind its two
//! callable commands.
//!
//! The [`greeting`] module formats a fixed greeting around a caller-supplied
//! name. The [`codec`] module turns raw file bytes into a text-safe encoded
//! string for transport to a text-only caller, and back. The surrounding
//! host runtime — window management, command dispatch, the filesystem read
//! itself — lives outside this crate and hands these functions plain values.

pub mod codec;
pub mod greeting;
