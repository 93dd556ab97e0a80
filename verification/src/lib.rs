//! Persistence core for a JSON image-content document: resolving where the
//! document lives on disk, initializing it from an embedded default, and
//! stamping object documents with an update timestamp on save.
//!
//! The library makes no filesystem calls itself: it computes paths, parses and
//! renders documents, and hands explicit plans (what to write, where) to a
//! thin I/O shell.

pub mod clock;
pub mod json;
pub mod paths;
pub mod store;

use vstd::prelude::*;

verus! {

/// Greeting shown to the owner of the admin tool.
pub fn greet_owner(name: &str) -> (r: String)
    ensures
        r@ == "Welcome back, "@ + name@ + "! Let's build unforgettable events."@,
{
    let mut greeting = String::from_str("Welcome back, ");
    greeting.append(name);
    greeting.append("! Let's build unforgettable events.");
    greeting
}

} // verus!
