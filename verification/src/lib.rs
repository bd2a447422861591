//! A minimal windowing shim, verified at its core.
//!
//! The shim opens one native top-level window, pumps its event queue, and
//! paints simple content.  The host windowing subsystem (window creation,
//! message retrieval, paint begin/end, error-code queries) is an external
//! collaborator; this library holds the parts with genuine design content
//! and states their behaviour as contracts:
//!
//! - [`diagnostics`]: the error-diagnostics service that turns a numeric
//!   failure code into display text, either from a fixed template or by
//!   decoding a host-supplied UTF-16 message buffer;
//! - [`utf16`]: encoding and decoding of UTF-16 code-unit sequences, with
//!   replacement of undecodable units;
//! - [`dispatch`]: the per-window event-dispatch state machine and the
//!   lifecycle of the window's application-owned state carrier;
//! - [`pump`]: the message-pump decisions and a verified driver over a
//!   scripted event sequence;
//! - [`acquire`]: the sentinel-to-result decisions behind fallible host
//!   resource acquisitions;
//! - [`win32`]: plain-value models of the host API's records and constants.
//!
//! Host handles and raw pointers appear throughout as plain numeric
//! identifiers; the unverified program around the library converts between
//! those identifiers and the real handles.

pub mod acquire;
pub mod diagnostics;
pub mod dispatch;
pub mod pump;
pub mod utf16;
pub mod win32;
