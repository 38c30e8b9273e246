//! Shared types: the API version markers and the query parameter list.

use vstd::prelude::*;

verus! {

/// The query parameters of a request: `(name, value)` pairs in the order in
/// which they go on the wire.
pub type Params = Vec<(String, String)>;

/// A query parameter in specifications: the characters of its name and value.
pub type Pair = (Seq<char>, Seq<char>);

/// An API generation, fixed when a client is made.
pub trait Version {
    /// The path segment that names this version on the wire.
    spec fn wire(&self) -> Seq<char>;

    /// The path segment that names this version on the wire.
    fn version(&self) -> (s: &str)
        ensures
            s@ == self.wire(),
    ;
}

/// Marker of API version 0.
#[derive(Clone, Copy, Debug)]
pub struct V0;

/// Marker of API version 2.
#[derive(Clone, Copy, Debug)]
pub struct V2;

impl Version for V0 {
    open spec fn wire(&self) -> Seq<char> {
        "v0"@
    }

    fn version(&self) -> (s: &str) {
        "v0"
    }
}

impl Version for V2 {
    open spec fn wire(&self) -> Seq<char> {
        "v2"@
    }

    fn version(&self) -> (s: &str) {
        "v2"
    }
}

} // verus!
