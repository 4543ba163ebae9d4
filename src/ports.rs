//! The port allocator's decision. The host tries the binds; this picks the
//! port from what they found.

use vstd::prelude::*;

verus! {

/// The port the backend uses when it is free.
pub const DEFAULT_PORT: u16 = 8000;

/// Whether `port` was found free by the binds: the default port when binding
/// it succeeded, or the port the system assigned to a bind of port 0.
pub open spec fn found_free(port: u16, default_free: bool, ephemeral: Option<u16>) -> bool {
    (port == DEFAULT_PORT && default_free) || ephemeral == Some(port)
}

/// Picks the backend's port. `default_free` tells whether binding the default
/// port on the loopback address succeeded; `ephemeral` is the port that the
/// system assigned to a bind of port 0, when that bind was made and succeeded.
/// Prefers the default port, then the assigned one; with neither, it falls
/// back to the default port unchecked, so that a connection failure shows the
/// problem later.
pub fn pick_port(default_free: bool, ephemeral: Option<u16>) -> (r: u16)
    ensures
        default_free ==> r == DEFAULT_PORT,
        !default_free ==> r == match ephemeral {
            Some(p) => p,
            None => DEFAULT_PORT,
        },
        default_free || ephemeral is Some ==> found_free(r, default_free, ephemeral),
{
    if default_free {
        return DEFAULT_PORT;
    }
    match ephemeral {
        Some(p) => p,
        None => DEFAULT_PORT,
    }
}

} // verus!
