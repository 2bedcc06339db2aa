//! Safe, verified core of a window-enumeration library for an X-style
//! display server.
//!
//! The library holds the decision and decoding logic of the wrapper: how a
//! property response is decoded into window identifiers, how a search by
//! title picks its window, how the session memoizes its lazily resolved
//! handles, and how every server-allocated buffer is balanced by exactly one
//! release. The native calls themselves (connection open, property fetch,
//! event send) live outside the verified boundary and hand this crate plain
//! values.

pub mod connection;
pub mod event;
pub mod prop;
pub mod session;
pub mod window;

use vstd::prelude::*;

verus! {

/// The property exists but has an unexpected type or format, or is absent.
#[derive(Debug, Clone, Copy, PartialEq, Eq, Structural)]
pub struct NotSupported;

/// The title property came back as a null buffer: the window has no title.
#[derive(Debug, Clone, Copy, PartialEq, Eq, Structural)]
pub struct Null;

/// The display server was unreachable or refused the connection.
#[derive(Debug, Clone, Copy, PartialEq, Eq, Structural)]
pub struct ConnectionFailed;

} // verus!
