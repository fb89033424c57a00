//! Server reflection: discovering schemas from a live server.
//!
//! Represented as a stub interface; fetching is not implemented, and the
//! engine reports that rather than guessing.

use vstd::prelude::*;
use crate::errors::EngineError;

verus! {

/// Queries servers for their schema over the reflection protocol.  The
/// protocol is not implemented yet; every fetch reports that.
pub struct ReflectionClient {}

impl ReflectionClient {
    pub fn new() -> Self {
        ReflectionClient {  }
    }

    /// Would fetch the serialized descriptor set of the server's services;
    /// reflection is not implemented, so every call reports that.
    pub fn fetch_schema(&self, server_url: &str) -> (r: Result<Vec<u8>, EngineError>)
        ensures
            r matches Err(e) && e is ReflectionNotSupported,
    {
        let _ = server_url;
        Err(EngineError::ReflectionNotSupported)
    }
}

impl Default for ReflectionClient {
    fn default() -> Self {
        ReflectionClient {  }
    }
}

} // verus!
