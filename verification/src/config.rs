//! Process-wide configuration: the optional directory under which
//! `/files/*` requests are served.

use vstd::prelude::*;

verus! {

use vstd::utf8::encode_utf8;

/// Configuration shared by every connection handler.  It holds at most
/// one value: the directory under which `/files/*` requests are
/// resolved.  It starts unset and is meant to be filled in once, from
/// the command line, before any request is handled.
pub struct Config {
    pub directory: Option<String>,
}

/// The directory as a byte string (its UTF-8 encoding), which is what
/// the router joins with the requested filename.
pub open spec fn spec_dir(c: &Config) -> Option<Seq<u8>> {
    match c.directory {
        Option::Some(d) => Option::Some(encode_utf8(d@)),
        Option::None => Option::None,
    }
}

impl Config {
    /// A fresh configuration with no serving directory set.
    pub fn new() -> (c: Self)
        ensures
            c.directory is None,
    {
        Self { directory: None }
    }
}

} // verus!
