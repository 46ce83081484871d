//! The credential store capability.
//!
//! The library never touches the persistence medium itself: a driver
//! implements this capability over whatever medium it likes — the
//! bundled choice is one JSON document in a file — and calls it
//! whenever the session is replaced.

use crate::atproto::UserSession;
use vstd::prelude::*;

verus! {

/// A place a snapshot can be kept between runs.  `set` writes the given
/// snapshot wholesale, or clears the store; `get` reads back the
/// snapshot kept.  Failures are reported as text and surfaced by the
/// caller as its storage error.
pub trait Storage<T> {
    fn set(&self, data: Option<&T>) -> Result<(), String>;

    fn get(&self) -> Result<T, String>;
}

/// The storage shape a client wants: a store of sessions.
pub trait StorableSession: Storage<UserSession> {

}

/// The location of a file-backed store: the session lives there as one
/// JSON document, written wholesale on every replacement and read
/// wholesale at startup.
#[derive(Debug, Clone)]
pub struct File {
    pub path: String,
}

impl File {
    /// Names the file a store keeps its document in.
    pub fn new(path: String) -> (r: File)
        ensures
            r.path == path,
    {
        File { path }
    }
}

} // verus!
